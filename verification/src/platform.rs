use vstd::prelude::*;

verus! {

/// An operating system the tool knows how to open a URL on.
///
/// A build of the tool serves exactly one of these: the binary around
/// this library picks the value that matches its build target and hands
/// it to [`crate::Cmd::execute`].
#[derive(Clone, Copy, PartialEq, Eq, Structural, Debug)]
pub enum Platform {
    Windows,
    MacOs,
    Linux,
}

/// The fixed pair a platform uses to open a URL: the executable's name
/// and the arguments that must precede the URL on its command line.
pub struct PlatformTarget {
    pub executable: String,
    pub fixed_args: Vec<String>,
}

/// The character views of a sequence of strings.
pub open spec fn views_of(strings: Seq<String>) -> Seq<Seq<char>> {
    strings.map_values(|s: String| s@)
}

impl Platform {
    /// The name of this platform's URL-opening executable.
    pub open spec fn spec_executable(self) -> Seq<char> {
        match self {
            Platform::Windows => "rundll32.exe"@,
            Platform::MacOs => "open"@,
            Platform::Linux => "xdg-open"@,
        }
    }

    /// The arguments that must precede the URL when invoking the
    /// platform's executable.
    pub open spec fn spec_fixed_args(self) -> Seq<Seq<char>> {
        match self {
            Platform::Windows => seq!["url.dll,FileProtocolHandler"@],
            Platform::MacOs => Seq::empty(),
            Platform::Linux => Seq::empty(),
        }
    }

    /// The fixed target of this platform.
    pub fn target(self) -> (t: PlatformTarget)
        ensures
            t.executable@ == self.spec_executable(),
            views_of(t.fixed_args@) == self.spec_fixed_args(),
    {
        match self {
            Platform::Windows => {
                let mut fixed: Vec<String> = Vec::new();
                fixed.push("url.dll,FileProtocolHandler".to_owned());
                let t = PlatformTarget { executable: "rundll32.exe".to_owned(), fixed_args: fixed };
                proof {
                    assert(views_of(t.fixed_args@) =~= self.spec_fixed_args());
                }
                t
            },
            Platform::MacOs => {
                let t = PlatformTarget { executable: "open".to_owned(), fixed_args: Vec::new() };
                proof {
                    assert(views_of(t.fixed_args@) =~= self.spec_fixed_args());
                }
                t
            },
            Platform::Linux => {
                let t = PlatformTarget { executable: "xdg-open".to_owned(), fixed_args: Vec::new() };
                proof {
                    assert(views_of(t.fixed_args@) =~= self.spec_fixed_args());
                }
                t
            },
        }
    }
}

} // verus!
