use vstd::prelude::*;

verus! {

/// What the tool does about the desktop background after saving the image.
pub enum BgPlan {
    /// The flag was not given: leave the background alone.
    Skip,
    /// Run the external utility with these arguments, in this order.
    Run { program: String, args: Vec<String> },
    /// The flag was given, but no utility is known for this platform:
    /// report non-support and do nothing.
    Unsupported,
}

/// The one operating system with a known background-setting utility.
pub open spec fn supported_os() -> Seq<char> {
    "linux"@
}

/// The argument list handed to the utility for the saved file.
pub open spec fn setter_args(path: Seq<char>) -> Seq<Seq<char>> {
    seq!["--bg-scale"@, path]
}

/// Decides how the background is set for the saved file: nothing unless
/// the flag is given; the pre-installed utility, invoked once with the
/// saved path, on the one supported operating system; a reported no-op
/// anywhere else. The surrounding program performs the invocation.
pub fn plan_set_bg(set: bool, os: &str, path: &str) -> (r: BgPlan)
    ensures
        !set ==> r is Skip,
        set && os@ == supported_os() ==> (r matches BgPlan::Run { program, args }
            && program@ == "feh"@
            && args@.map_values(|a: String| a@) == setter_args(path@)),
        set && os@ != supported_os() ==> r is Unsupported,
{
    if !set {
        return BgPlan::Skip;
    }
    let here = String::from_str(os);
    let supported = String::from_str("linux");
    if here == supported {
        let mut args: Vec<String> = Vec::new();
        args.push(String::from_str("--bg-scale"));
        args.push(String::from_str(path));
        proof {
            assert(args@.map_values(|a: String| a@) =~= setter_args(path@));
        }
        BgPlan::Run { program: String::from_str("feh"), args }
    } else {
        BgPlan::Unsupported
    }
}

} // verus!
