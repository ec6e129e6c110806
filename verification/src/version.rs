//! The crate's version banner.
//!
//! The banner combines the release, the commit it was cut from and the
//! build date, in a short and a verbose form; the short form opens with
//! a green highlight on a color terminal.

use vstd::prelude::*;
use vstd::string::StringExecFns;

verus! {

/// The release this banner reports.
fn semver() -> (r: &'static str)
    ensures
        r@ == "v0.1.3"@,
{
    "v0.1.3"
}

/// The full hash of the commit the release was cut from.
fn sha() -> (r: &'static str)
    ensures
        r@ == "d90443d92db3826c648817e6bd6cb757729f7209"@,
{
    "d90443d92db3826c648817e6bd6cb757729f7209"
}

/// The short form of the commit hash.
fn short_sha() -> (r: &'static str)
    ensures
        r@ == "d90443d"@,
{
    "d90443d"
}

/// The date of the commit.
fn commit_date() -> (r: &'static str)
    ensures
        r@ == "2015-12-07"@,
{
    "2015-12-07"
}

/// The date of the build.
fn short_now() -> (r: &'static str)
    ensures
        r@ == "2015-12-07"@,
{
    "2015-12-07"
}

/// The host triple the build targets.
fn target() -> (r: &'static str)
    ensures
        r@ == "x86_64-unknown-linux-gnu"@,
{
    "x86_64-unknown-linux-gnu"
}

/// The short banner's text.
pub open spec fn spec_ver() -> Seq<char> {
    "\u{1b}[32;1mrl-sys "@ + "v0.1.3"@ + "\u{1b}[0m ("@ + "d90443d"@ + " "@ + "2015-12-07"@
        + ") (built "@ + "2015-12-07"@ + ")"@
}

/// The verbose banner's text: the short banner followed by the full
/// commit hash, the dates, the host and the release.
pub open spec fn spec_verbose_ver() -> Seq<char> {
    spec_ver() + "\ncommit-hash: "@ + "d90443d92db3826c648817e6bd6cb757729f7209"@
        + "\ncommit-date: "@ + "2015-12-07"@ + "\nbuild-date: "@ + "2015-12-07"@ + "\nhost: "@
        + "x86_64-unknown-linux-gnu"@ + "\nrelease: "@ + "v0.1.3"@
}

/// The short banner.
pub fn ver() -> (r: String)
    ensures
        r@ == spec_ver(),
{
    let mut s = String::from_str("\u{1b}[32;1mrl-sys ");
    s.append(semver());
    s.append("\u{1b}[0m (");
    s.append(short_sha());
    s.append(" ");
    s.append(commit_date());
    s.append(") (built ");
    s.append(short_now());
    s.append(")");
    s
}

/// The verbose banner.
pub fn verbose_ver() -> (r: String)
    ensures
        r@ == spec_verbose_ver(),
{
    let mut s = ver();
    s.append("\ncommit-hash: ");
    s.append(sha());
    s.append("\ncommit-date: ");
    s.append(commit_date());
    s.append("\nbuild-date: ");
    s.append(short_now());
    s.append("\nhost: ");
    s.append(target());
    s.append("\nrelease: ");
    s.append(semver());
    s
}

/// The version banner, verbose when asked for.
pub fn version(verbose: bool) -> (r: String)
    ensures
        verbose ==> r@ == spec_verbose_ver(),
        !verbose ==> r@ == spec_ver(),
{
    if verbose {
        verbose_ver()
    } else {
        ver()
    }
}

} // verus!
