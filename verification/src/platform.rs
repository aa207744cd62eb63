//! The platform a tunnel is set up for.
use vstd::prelude::*;

verus! {

/// The family of operating system that the tunnel runs on.
///
/// It is an ordinary value, picked by the caller, so both families can be
/// exercised on any host.
#[derive(Clone, Copy, Debug, PartialEq, Eq, Structural)]
pub enum Platform {
    /// The tunnel runs as a service under the system's service manager.
    Windows,
    /// The tunnel runs as a child process of the caller.
    Posix,
}

impl Platform {
    /// The characters that end a line of text on this platform.
    pub open spec fn spec_newline(self) -> Seq<char> {
        match self {
            Platform::Windows => seq!['\r', '\n'],
            Platform::Posix => seq!['\n'],
        }
    }

    /// The character that this platform puts between the parts of a path.
    pub open spec fn spec_separator(self) -> char {
        match self {
            Platform::Windows => '\\',
            Platform::Posix => '/',
        }
    }

    /// Whether `c` separates the parts of a path on this platform.
    pub open spec fn spec_is_separator(self, c: char) -> bool {
        c == '/' || (self is Windows && c == '\\')
    }

    /// The line ending of this platform: carriage return and line feed on
    /// Windows, a single line feed elsewhere.
    pub fn newline(self) -> (text: &'static str)
        ensures
            text@ == self.spec_newline(),
    {
        match self {
            Platform::Windows => {
                proof {
                    reveal_strlit("\r\n");
                }
                assert("\r\n"@ =~= seq!['\r', '\n']);
                "\r\n"
            },
            Platform::Posix => {
                proof {
                    reveal_strlit("\n");
                }
                assert("\n"@ =~= seq!['\n']);
                "\n"
            },
        }
    }

    /// The path separator of this platform, as text: the backslash on
    /// Windows, the slash elsewhere.
    pub fn separator(self) -> (text: &'static str)
        ensures
            text@ == seq![self.spec_separator()],
    {
        match self {
            Platform::Windows => {
                proof {
                    reveal_strlit("\\");
                }
                assert("\\"@ =~= seq!['\\']);
                "\\"
            },
            Platform::Posix => {
                proof {
                    reveal_strlit("/");
                }
                assert("/"@ =~= seq!['/']);
                "/"
            },
        }
    }

    /// Whether `c` separates the parts of a path on this platform: the slash
    /// everywhere, the backslash on Windows only.
    pub fn is_separator(self, c: char) -> (yes: bool)
        ensures
            yes == self.spec_is_separator(c),
    {
        match self {
            Platform::Windows => c == '/' || c == '\\',
            Platform::Posix => c == '/',
        }
    }
}

} // verus!
