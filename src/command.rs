use vstd::prelude::*;

verus! {

/// The fixed place of the activated device identity.
pub const ACTIVATION_DIR: &'static str = "/tmp/adept";

/// The fixed place where an uploaded license is written.
pub const LICENSE_PATH: &'static str = "/tmp/URLLink.acsm";

/// The fixed place where the downloaded book is written.
pub const BOOK_PATH: &'static str = "/tmp/book.epub";

/// Where the external tools read and write: the identity directory, the license
/// file handed to the downloader and the book file it produces.
pub struct Layout {
    pub activation_dir: String,
    pub license_path: String,
    pub book_path: String,
}

pub struct LayoutView {
    pub activation_dir: Seq<char>,
    pub license_path: Seq<char>,
    pub book_path: Seq<char>,
}

impl View for Layout {
    type V = LayoutView;

    open spec fn view(&self) -> LayoutView {
        LayoutView {
            activation_dir: self.activation_dir@,
            license_path: self.license_path@,
            book_path: self.book_path@,
        }
    }
}

/// How a run of an external tool whose output is not kept ended.
#[derive(PartialEq, Eq, Structural, Clone, Copy)]
pub enum ExitOutcome {
    /// The program could not be started.
    LaunchFailed,
    /// The program ran and exited, with status zero or not.
    Exited { success: bool },
}

/// A program to run and the arguments it is given.
pub struct Invocation {
    pub program: String,
    pub args: Vec<String>,
}

pub struct InvocationView {
    pub program: Seq<char>,
    pub args: Seq<Seq<char>>,
}

impl View for Invocation {
    type V = InvocationView;

    open spec fn view(&self) -> InvocationView {
        InvocationView { program: self.program@, args: self.args@.map_values(|a: String| a@) }
    }
}

/// `adept_activate -aO <dir>`: creates a device identity in `dir`.
pub open spec fn activation_spec(dir: Seq<char>) -> InvocationView {
    InvocationView { program: "adept_activate"@, args: seq!["-aO"@, dir] }
}

/// `acsmdownloader -D <dir> -o <book> <license>`: fetches the book that the
/// license grants, with the identity in `dir`.
pub open spec fn download_spec(layout: LayoutView) -> InvocationView {
    InvocationView {
        program: "acsmdownloader"@,
        args: seq!["-D"@, layout.activation_dir, "-o"@, layout.book_path, layout.license_path],
    }
}

/// `adept_remove -o <book> -D <dir> <book>`: strips the protection from the book
/// file in place.
pub open spec fn removal_spec(layout: LayoutView) -> InvocationView {
    InvocationView {
        program: "adept_remove"@,
        args: seq!["-o"@, layout.book_path, "-D"@, layout.activation_dir, layout.book_path],
    }
}

fn owned(s: &str) -> (r: String)
    ensures
        r@ == s@,
{
    s.to_owned()
}

fn invocation(program: &str, args: Vec<String>) -> (r: Invocation)
    ensures
        r@.program == program@,
        r@.args == args@.map_values(|a: String| a@),
{
    Invocation { program: owned(program), args }
}

impl Layout {
    /// The fixed paths under `/tmp` that the tools share.
    pub fn standard() -> (r: Layout)
        ensures
            r@.activation_dir == ACTIVATION_DIR@,
            r@.license_path == LICENSE_PATH@,
            r@.book_path == BOOK_PATH@,
    {
        Layout {
            activation_dir: owned(ACTIVATION_DIR),
            license_path: owned(LICENSE_PATH),
            book_path: owned(BOOK_PATH),
        }
    }

    /// The command that downloads the book.
    pub fn download_command(&self) -> (r: Invocation)
        ensures
            r@ == download_spec(self@),
    {
        let mut args: Vec<String> = Vec::new();
        args.push(owned("-D"));
        args.push(self.activation_dir.clone());
        args.push(owned("-o"));
        args.push(self.book_path.clone());
        args.push(self.license_path.clone());
        let r = invocation("acsmdownloader", args);
        assert(r@.args =~= download_spec(self@).args);
        r
    }

    /// The command that strips the protection from the downloaded book.
    pub fn removal_command(&self) -> (r: Invocation)
        ensures
            r@ == removal_spec(self@),
    {
        let mut args: Vec<String> = Vec::new();
        args.push(owned("-o"));
        args.push(self.book_path.clone());
        args.push(owned("-D"));
        args.push(self.activation_dir.clone());
        args.push(self.book_path.clone());
        let r = invocation("adept_remove", args);
        assert(r@.args =~= removal_spec(self@).args);
        r
    }
}

/// The command that creates a device identity in `dir`.
pub fn activation_command(dir: &str) -> (r: Invocation)
    ensures
        r@ == activation_spec(dir@),
{
    let mut args: Vec<String> = Vec::new();
    args.push(owned("-aO"));
    args.push(owned(dir));
    let r = invocation("adept_activate", args);
    assert(r@.args =~= activation_spec(dir@).args);
    r
}

} // verus!
