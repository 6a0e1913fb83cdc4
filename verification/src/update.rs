//! Choosing a release to update to: the repository path, the archive name
//! for this platform, and the asset to download from the latest release.

use vstd::prelude::*;
use crate::text::{chars_of, compare_chars, concat, owned, seq_le, seq_lt, starts_with_chars, starts_with_seq, str_eq, string_of, slice_chars};

verus! {

/// The owner/name path of a GitHub repository URL: the URL without its
/// "https://github.com/" prefix (the URL itself when it has none).
pub open spec fn repo_path(url: Seq<char>) -> Seq<char> {
    let p = "https://github.com/"@;
    if starts_with_seq(url, p) { url.subrange(p.len() as int, url.len() as int) } else { url }
}

/// The owner/name path of the repository at `url` (see [`repo_path`]).
pub fn repo(url: &str) -> (r: String)
    ensures
        r@ == repo_path(url@),
{
    let cs = chars_of(url);
    let p = chars_of("https://github.com/");
    if starts_with_chars(&cs, &p) {
        let rest = slice_chars(&cs, p.len(), cs.len());
        string_of(rest.as_slice())
    } else {
        owned(url)
    }
}

/// The archive format of release builds for operating system `os`.
pub open spec fn archive_ext_for(os: Seq<char>) -> Seq<char> {
    if os == "windows"@ { "zip"@ } else { "tar.gz"@ }
}

/// The archive format of release builds for operating system `os`
/// (see [`archive_ext_for`]).
pub fn archive_ext(os: &str) -> (r: &'static str)
    ensures
        r@ == archive_ext_for(os@),
{
    if str_eq(os, "windows") { "zip" } else { "tar.gz" }
}

/// The target triple of release builds for a CPU architecture, an
/// operating system and a C library ("gnu", "musl", ...); "unknown" for
/// platforms without builds.
pub open spec fn triple_for(arch: Seq<char>, os: Seq<char>, env: Seq<char>) -> Seq<char> {
    if arch == "x86_64"@ && os == "linux"@ && env == "gnu"@ { "x86_64-unknown-linux-gnu"@ }
    else if arch == "x86_64"@ && os == "linux"@ && env == "musl"@ { "x86_64-unknown-linux-musl"@ }
    else if arch == "aarch64"@ && os == "linux"@ && env == "gnu"@ { "aarch64-unknown-linux-gnu"@ }
    else if arch == "aarch64"@ && os == "linux"@ && env == "musl"@ { "aarch64-unknown-linux-musl"@ }
    else if arch == "arm"@ && os == "linux"@ && env == "gnu"@ { "armv7-unknown-linux-gnueabihf"@ }
    else if arch == "x86"@ && os == "linux"@ && env == "gnu"@ { "i686-unknown-linux-gnu"@ }
    else if arch == "x86"@ && os == "linux"@ && env == "musl"@ { "i686-unknown-linux-musl"@ }
    else if arch == "x86_64"@ && os == "macos"@ { "x86_64-apple-darwin"@ }
    else if arch == "aarch64"@ && os == "macos"@ { "aarch64-apple-darwin"@ }
    else if arch == "x86_64"@ && os == "windows"@ { "x86_64-pc-windows-msvc"@ }
    else if arch == "x86"@ && os == "windows"@ { "i686-pc-windows-msvc"@ }
    else { "unknown"@ }
}

/// The target triple of release builds for a platform (see
/// [`triple_for`]).
pub fn target_triple(arch: &str, os: &str, env: &str) -> (r: &'static str)
    ensures
        r@ == triple_for(arch@, os@, env@),
{
    let x86_64 = str_eq(arch, "x86_64");
    let aarch64 = str_eq(arch, "aarch64");
    let arm = str_eq(arch, "arm");
    let x86 = str_eq(arch, "x86");
    let linux = str_eq(os, "linux");
    let macos = str_eq(os, "macos");
    let windows = str_eq(os, "windows");
    let gnu = str_eq(env, "gnu");
    let musl = str_eq(env, "musl");
    if x86_64 && linux && gnu { "x86_64-unknown-linux-gnu" }
    else if x86_64 && linux && musl { "x86_64-unknown-linux-musl" }
    else if aarch64 && linux && gnu { "aarch64-unknown-linux-gnu" }
    else if aarch64 && linux && musl { "aarch64-unknown-linux-musl" }
    else if arm && linux && gnu { "armv7-unknown-linux-gnueabihf" }
    else if x86 && linux && gnu { "i686-unknown-linux-gnu" }
    else if x86 && linux && musl { "i686-unknown-linux-musl" }
    else if x86_64 && macos { "x86_64-apple-darwin" }
    else if aarch64 && macos { "aarch64-apple-darwin" }
    else if x86_64 && windows { "x86_64-pc-windows-msvc" }
    else if x86 && windows { "i686-pc-windows-msvc" }
    else { "unknown" }
}

/// One downloadable file of a release, as far as the update check reads it.
#[derive(Debug)]
pub struct ReleaseAsset {
    pub name: Option<String>,
    pub browser_download_url: Option<String>,
}

/// The latest release, as far as the update check reads it: its tag (when
/// it is a string) and its assets (when they are a list).
#[derive(Debug)]
pub struct Release {
    pub tag_name: Option<String>,
    pub assets: Option<Vec<ReleaseAsset>>,
}

/// Whether the release query answered that there is no release.
pub open spec fn no_release_status(status: u16) -> bool {
    status == 204 || status == 404
}

/// Whether the release query answered that there is no release (HTTP 204
/// or 404).
pub fn no_release(status: u16) -> (r: bool)
    ensures
        r == no_release_status(status),
{
    status == 204 || status == 404
}

/// The version a release tag names: the tag without a leading 'v'; a
/// missing tag counts as "v0.0.0".
pub open spec fn tag_version(tag: Option<String>) -> Seq<char> {
    let t = match tag { Some(s) => s@, None => "v0.0.0"@ };
    if t.len() > 0 && t[0] == 'v' { t.drop_first() } else { t }
}

/// The file name of the release archive for a version, target and format.
pub open spec fn archive_name(version: Seq<char>, target: Seq<char>, ext: Seq<char>) -> Seq<char> {
    "omdocker_"@ + version + "_"@ + target + "."@ + ext
}

/// The download URL of the first asset at or after `i` that carries the
/// name `name` and a URL.
pub open spec fn asset_url(assets: Seq<ReleaseAsset>, name: Seq<char>, i: int) -> Option<Seq<char>>
    decreases assets.len() - i,
{
    if i < 0 || i >= assets.len() {
        None
    } else {
        let a = assets[i];
        let n = match a.name { Some(s) => s@, None => Seq::empty() };
        if n == name && a.browser_download_url is Some {
            Some(a.browser_download_url->0@)
        } else {
            asset_url(assets, name, i + 1)
        }
    }
}

/// The update a release offers over `current`: its version and the URL of
/// the archive for this platform, when the version is greater than
/// `current` (compared as text) and the archive is among the assets.
pub open spec fn offered_update(release: Release, current: Seq<char>, target: Seq<char>, ext: Seq<char>) -> Option<(Seq<char>, Seq<char>)> {
    let v = tag_version(release.tag_name);
    if seq_le(v, current) {
        None
    } else {
        match release.assets {
            Some(a) => match asset_url(a@, archive_name(v, target, ext), 0) {
                Some(url) => Some((v, url)),
                None => None,
            },
            None => None,
        }
    }
}

fn tag_version_exec(tag: &Option<String>) -> (r: String)
    ensures
        r@ == tag_version(*tag),
{
    let t = match tag {
        Some(s) => s.clone(),
        None => owned("v0.0.0"),
    };
    let cs = chars_of(t.as_str());
    if cs.len() > 0 && cs[0] == 'v' {
        let rest = slice_chars(&cs, 1, cs.len());
        assert(rest@ =~= cs@.drop_first());
        string_of(rest.as_slice())
    } else {
        t
    }
}

/// The update a release offers over version `current` for a target and an
/// archive format (see [`offered_update`]).
pub fn update_from_release(release: &Release, current: &str, target: &str, ext: &str) -> (r: Option<(String, String)>)
    ensures
        (match r { Some((v, u)) => Some((v@, u@)), None => None }) == offered_update(*release, current@, target@, ext@),
{
    let v = tag_version_exec(&release.tag_name);
    let vc = chars_of(v.as_str());
    let cc = chars_of(current);
    if compare_chars(&vc, &cc) <= 0 {
        return None;
    }
    let name = concat("omdocker_", v.as_str());
    let name = concat(name.as_str(), "_");
    let name = concat(name.as_str(), target);
    let name = concat(name.as_str(), ".");
    let name = concat(name.as_str(), ext);
    match &release.assets {
        Some(assets) => {
            let mut i: usize = 0;
            while i < assets.len()
                invariant
                    i <= assets@.len(),
                    asset_url(assets@, name@, i as int) == asset_url(assets@, name@, 0),
                    release.assets == Some(*assets),
                    !seq_le(v@, current@),
                    v@ == tag_version(release.tag_name),
                    name@ == archive_name(v@, target@, ext@),
                decreases assets@.len() - i,
            {
                let matches = match &assets[i].name {
                    Some(n) => str_eq(n.as_str(), name.as_str()),
                    None => name.as_str().is_empty(),
                };
                let ghost n = match assets@[i as int].name { Some(s) => s@, None => Seq::<char>::empty() };
                proof {
                    if assets@[i as int].name is None && name@.len() == 0 {
                        assert(name@ =~= Seq::<char>::empty());
                    }
                }
                assert(matches == (n == name@));
                if matches {
                    match &assets[i].browser_download_url {
                        Some(url) => {
                            assert(asset_url(assets@, name@, i as int) == Some(url@));
                            return Some((v, url.clone()));
                        }
                        None => {}
                    }
                }
                i = i + 1;
            }
            None
        }
        None => None,
    }
}

} // verus!
