//! The ordered fallback search for the renderer executable.
//!
//! A deck start locates the renderer binary by trying, in order: the
//! bundled sidecar beside the controller executable, the plain name
//! beside it, the workspace build directories, and the platform's
//! standard install locations.  The file-system probing happens outside
//! the library: the candidate order and the failure report are fixed
//! here, and the caller takes the first candidate that exists.

use vstd::prelude::*;

use crate::jsonfmt::append_u64;

verus! {

/// The platforms the search distinguishes.
#[derive(Debug, Clone, Copy, PartialEq, Eq, Structural)]
pub enum Platform {
    Linux,
    Windows,
    MacOs,
    Other,
}

/// The processor architectures the sidecar naming distinguishes.
#[derive(Debug, Clone, Copy, PartialEq, Eq, Structural)]
pub enum Arch {
    X86_64,
    Aarch64,
    Other,
}

/// Name of the renderer executable on a platform.
pub fn renderer_executable_name(os: Platform) -> (r: &'static str)
    ensures
        os == Platform::Windows ==> r@ == "opendrop-renderer.exe"@,
        os != Platform::Windows ==> r@ == "opendrop-renderer"@,
{
    match os {
        Platform::Windows => "opendrop-renderer.exe",
        _ => "opendrop-renderer",
    }
}

/// The build target triple of a platform and architecture, used to name
/// bundled sidecar executables.
pub fn target_triple(os: Platform, arch: Arch) -> (r: &'static str)
    ensures
        os == Platform::Windows && arch == Arch::X86_64 ==> r@ == "x86_64-pc-windows-msvc"@,
        os == Platform::Linux && arch == Arch::X86_64 ==> r@ == "x86_64-unknown-linux-gnu"@,
        os == Platform::MacOs && arch == Arch::X86_64 ==> r@ == "x86_64-apple-darwin"@,
        os == Platform::MacOs && arch == Arch::Aarch64 ==> r@ == "aarch64-apple-darwin"@,
        !((os == Platform::Windows || os == Platform::Linux) && arch == Arch::X86_64) && !(os
            == Platform::MacOs && (arch == Arch::X86_64 || arch == Arch::Aarch64)) ==> r@
            == "unknown"@,
{
    match (os, arch) {
        (Platform::Windows, Arch::X86_64) => "x86_64-pc-windows-msvc",
        (Platform::Linux, Arch::X86_64) => "x86_64-unknown-linux-gnu",
        (Platform::MacOs, Arch::X86_64) => "x86_64-apple-darwin",
        (Platform::MacOs, Arch::Aarch64) => "aarch64-apple-darwin",
        _ => "unknown",
    }
}

/// Directories the caller knows; each entry is absent where the
/// environment does not provide it.
#[derive(Debug)]
pub struct SearchEnv {
    /// Directory of the controller executable.
    pub exe_dir: Option<String>,
    /// Current working directory.
    pub cwd: Option<String>,
    /// The user's home directory.
    pub home: Option<String>,
    /// The program-files directory.
    pub program_files: Option<String>,
    /// The user's local application data directory.
    pub local_app_data: Option<String>,
    /// The application bundle's resources directory.
    pub bundle_resources: Option<String>,
}

/// The candidate paths, in search order.
pub open spec fn spec_renderer_candidates(
    os: Platform,
    arch: Arch,
    env: SearchEnv,
) -> Seq<Seq<char>> {
    let exe = if os == Platform::Windows {
        "opendrop-renderer.exe"@
    } else {
        "opendrop-renderer"@
    };
    let sidecar = "opendrop-renderer-"@ + spec_triple(os, arch) + (if os == Platform::Windows {
        ".exe"@
    } else {
        Seq::<char>::empty()
    });
    (match env.exe_dir {
        Some(d) => seq![d@ + "/"@ + sidecar, d@ + "/"@ + exe],
        None => Seq::<Seq<char>>::empty(),
    }) + (match env.cwd {
        Some(c) => seq![
            c@ + "/target/release/"@ + exe,
            c@ + "/target/debug/"@ + exe,
            c@ + "/../target/release/"@ + exe,
            c@ + "/../target/debug/"@ + exe,
        ],
        None => Seq::<Seq<char>>::empty(),
    }) + (if os == Platform::Linux {
        seq!["/usr/bin/opendrop-renderer"@, "/usr/local/bin/opendrop-renderer"@] + (
        match env.home {
            Some(h) => seq![h@ + "/.local/bin/opendrop-renderer"@],
            None => Seq::<Seq<char>>::empty(),
        })
    } else if os == Platform::Windows {
        (match env.program_files {
            Some(p) => seq![p@ + "/OpenDrop/opendrop-renderer.exe"@],
            None => Seq::<Seq<char>>::empty(),
        }) + (match env.local_app_data {
            Some(l) => seq![l@ + "/OpenDrop/opendrop-renderer.exe"@],
            None => Seq::<Seq<char>>::empty(),
        })
    } else if os == Platform::MacOs {
        seq!["/usr/local/bin/opendrop-renderer"@, "/opt/homebrew/bin/opendrop-renderer"@] + (
        match env.bundle_resources {
            Some(b) => seq![b@ + "/opendrop-renderer"@],
            None => Seq::<Seq<char>>::empty(),
        })
    } else {
        Seq::<Seq<char>>::empty()
    })
}

/// The triple as a character sequence.
pub open spec fn spec_triple(os: Platform, arch: Arch) -> Seq<char> {
    if os == Platform::Windows && arch == Arch::X86_64 {
        "x86_64-pc-windows-msvc"@
    } else if os == Platform::Linux && arch == Arch::X86_64 {
        "x86_64-unknown-linux-gnu"@
    } else if os == Platform::MacOs && arch == Arch::X86_64 {
        "x86_64-apple-darwin"@
    } else if os == Platform::MacOs && arch == Arch::Aarch64 {
        "aarch64-apple-darwin"@
    } else {
        "unknown"@
    }
}

/// `a + "/" + b` as one path string.
fn join2(a: &str, b: &str) -> (r: String)
    ensures
        r@ == a@ + "/"@ + b@,
{
    let mut s = String::from_str(a);
    s.append("/");
    s.append(b);
    proof {
        assert(s@ =~= a@ + "/"@ + b@);
    }
    s
}

/// `a + b` as one string.
fn concat2(a: &str, b: &str) -> (r: String)
    ensures
        r@ == a@ + b@,
{
    let mut s = String::from_str(a);
    s.append(b);
    s
}

/// Candidate paths for the renderer executable, in the order the search
/// tries them; the caller takes the first existing, executable file.
pub fn renderer_candidates(os: Platform, arch: Arch, env: &SearchEnv) -> (r: Vec<String>)
    ensures
        r.deep_view() == spec_renderer_candidates(os, arch, *env),
{
    let exe = renderer_executable_name(os);
    let sidecar = {
        let mut s = String::from_str("opendrop-renderer-");
        s.append(target_triple(os, arch));
        if matches!(os, Platform::Windows) {
            s.append(".exe");
        }
        proof {
            assert(s@ =~= "opendrop-renderer-"@ + spec_triple(os, arch) + (if os
                == Platform::Windows {
                ".exe"@
            } else {
                Seq::<char>::empty()
            }));
        }
        s
    };
    let mut v: Vec<String> = Vec::new();
    match &env.exe_dir {
        Some(d) => {
            v.push(join2(d.as_str(), sidecar.as_str()));
            v.push(join2(d.as_str(), exe));
        },
        None => {},
    }
    match &env.cwd {
        Some(c) => {
            v.push(concat2(concat2(c.as_str(), "/target/release/").as_str(), exe));
            v.push(concat2(concat2(c.as_str(), "/target/debug/").as_str(), exe));
            v.push(concat2(concat2(c.as_str(), "/../target/release/").as_str(), exe));
            v.push(concat2(concat2(c.as_str(), "/../target/debug/").as_str(), exe));
        },
        None => {},
    }
    match os {
        Platform::Linux => {
            v.push(String::from_str("/usr/bin/opendrop-renderer"));
            v.push(String::from_str("/usr/local/bin/opendrop-renderer"));
            match &env.home {
                Some(h) => {
                    v.push(concat2(h.as_str(), "/.local/bin/opendrop-renderer"));
                },
                None => {},
            }
        },
        Platform::Windows => {
            match &env.program_files {
                Some(p) => {
                    v.push(concat2(p.as_str(), "/OpenDrop/opendrop-renderer.exe"));
                },
                None => {},
            }
            match &env.local_app_data {
                Some(l) => {
                    v.push(concat2(l.as_str(), "/OpenDrop/opendrop-renderer.exe"));
                },
                None => {},
            }
        },
        Platform::MacOs => {
            v.push(String::from_str("/usr/local/bin/opendrop-renderer"));
            v.push(String::from_str("/opt/homebrew/bin/opendrop-renderer"));
            match &env.bundle_resources {
                Some(b) => {
                    v.push(concat2(b.as_str(), "/opendrop-renderer"));
                },
                None => {},
            }
        },
        Platform::Other => {},
    }
    proof {
        assert(v.deep_view() =~= spec_renderer_candidates(os, arch, *env));
    }
    v
}

/// Directories the preset and texture searches know; each entry is
/// absent where the environment does not provide it.
#[derive(Debug)]
pub struct DataEnv {
    /// The user's home directory.
    pub home: Option<String>,
    /// The user's data directory, where the platform sets one.
    pub data_home: Option<String>,
    /// Directory of the controller executable.
    pub exe_dir: Option<String>,
    /// Parent of the executable's directory, for bundled layouts.
    pub exe_parent_dir: Option<String>,
    /// The mounted application image's root, where one is set.
    pub appdir: Option<String>,
}

/// The data directories searched for one kind of content (`presets` or
/// `textures`), in search order: the system locations, the user's
/// locations, then the locations beside the executable.
pub open spec fn spec_data_dirs(kind: Seq<char>, env: DataEnv) -> Seq<Seq<char>> {
    seq!["/usr/share/projectM/"@ + kind, "/usr/local/share/projectM/"@ + kind] + (
    match env.home {
        Some(h) => seq![
            h@ + "/.local/share/opendrop/"@ + kind,
            h@ + "/.local/share/projectM/"@ + kind,
            h@ + "/OpenDrop/"@ + kind,
        ],
        None => Seq::<Seq<char>>::empty(),
    }) + (match env.data_home {
        Some(d) => seq![d@ + "/opendrop/"@ + kind, d@ + "/projectM/"@ + kind],
        None => Seq::<Seq<char>>::empty(),
    }) + (match env.exe_dir {
        Some(e) => seq![e@ + "/"@ + kind, e@ + "/resources/"@ + kind],
        None => Seq::<Seq<char>>::empty(),
    }) + (match env.exe_parent_dir {
        Some(p) => seq![
            p@ + "/"@ + kind,
            p@ + "/resources/"@ + kind,
            p@ + "/Resources/"@ + kind,
        ],
        None => Seq::<Seq<char>>::empty(),
    }) + (match env.appdir {
        Some(a) => seq![a@ + "/"@ + kind, a@ + "/resources/"@ + kind],
        None => Seq::<Seq<char>>::empty(),
    })
}

/// Build the search list for one kind of content.
fn data_dir_candidates(kind: &str, env: &DataEnv) -> (r: Vec<String>)
    ensures
        r.deep_view() == spec_data_dirs(kind@, *env),
{
    let mut v: Vec<String> = Vec::new();
    v.push(concat2("/usr/share/projectM/", kind));
    v.push(concat2("/usr/local/share/projectM/", kind));
    match &env.home {
        Some(h) => {
            v.push(concat2(concat2(h.as_str(), "/.local/share/opendrop/").as_str(), kind));
            v.push(concat2(concat2(h.as_str(), "/.local/share/projectM/").as_str(), kind));
            v.push(concat2(concat2(h.as_str(), "/OpenDrop/").as_str(), kind));
        },
        None => {},
    }
    match &env.data_home {
        Some(d) => {
            v.push(concat2(concat2(d.as_str(), "/opendrop/").as_str(), kind));
            v.push(concat2(concat2(d.as_str(), "/projectM/").as_str(), kind));
        },
        None => {},
    }
    match &env.exe_dir {
        Some(e) => {
            v.push(join2(e.as_str(), kind));
            v.push(concat2(concat2(e.as_str(), "/resources/").as_str(), kind));
        },
        None => {},
    }
    match &env.exe_parent_dir {
        Some(p) => {
            v.push(join2(p.as_str(), kind));
            v.push(concat2(concat2(p.as_str(), "/resources/").as_str(), kind));
            v.push(concat2(concat2(p.as_str(), "/Resources/").as_str(), kind));
        },
        None => {},
    }
    match &env.appdir {
        Some(a) => {
            v.push(join2(a.as_str(), kind));
            v.push(concat2(concat2(a.as_str(), "/resources/").as_str(), kind));
        },
        None => {},
    }
    proof {
        assert(v.deep_view() =~= spec_data_dirs(kind@, *env));
    }
    v
}

/// The preset directories to search, in order; the caller keeps those
/// that exist.
pub fn preset_dir_candidates(env: &DataEnv) -> (r: Vec<String>)
    ensures
        r.deep_view() == spec_data_dirs("presets"@, *env),
{
    data_dir_candidates("presets", env)
}

/// The texture directories to search, in order: the texture locations,
/// then the preset locations, since textures often sit beside presets.
pub fn texture_dir_candidates(env: &DataEnv) -> (r: Vec<String>)
    ensures
        r.deep_view() == spec_data_dirs("textures"@, *env) + spec_data_dirs("presets"@, *env),
{
    let mut v = data_dir_candidates("textures", env);
    let mut presets = data_dir_candidates("presets", env);
    let ghost tv = v.deep_view();
    let ghost pv = presets.deep_view();
    let mut i: usize = 0;
    proof {
        assert(pv.take(0) =~= Seq::<Seq<char>>::empty());
        assert(tv + pv.take(0) =~= tv);
    }
    while i < presets.len()
        invariant
            pv == presets.deep_view(),
            pv.len() == presets@.len(),
            forall|k: int| 0 <= k < presets@.len() ==> pv[k] == presets@[k]@,
            i <= presets@.len(),
            v.deep_view() == tv + pv.take(i as int),
        decreases presets@.len() - i,
    {
        proof {
            assert(pv.take(i as int + 1).drop_last() =~= pv.take(i as int));
            assert(pv.take(i as int + 1).last() == pv[i as int]);
        }
        let ghost vpre = v.deep_view();
        v.push(presets[i].clone());
        proof {
            assert(v.deep_view().len() == v@.len());
            assert(forall|k: int| 0 <= k < v@.len() ==> #[trigger] v.deep_view()[k] == v@[k]@);
            assert(v.deep_view() =~= vpre.push(pv[i as int]));
            assert(v.deep_view() =~= tv + pv.take(i as int + 1));
        }
        i = i + 1;
    }
    proof {
        assert(pv.take(presets@.len() as int) =~= pv);
    }
    v
}

/// The candidate listing of the failure report: each path on its own
/// indented line.
pub open spec fn spec_searched_body(cands: Seq<Seq<char>>) -> Seq<char>
    decreases cands.len(),
{
    if cands.len() == 0 {
        Seq::<char>::empty()
    } else if cands.len() == 1 {
        cands[0]
    } else {
        spec_searched_body(cands.drop_last()) + "\n  - "@ + cands.last()
    }
}

/// The failure report of the search: the fixed heading, then the first
/// five candidates tried, each on its own indented line.
pub open spec fn spec_not_found_message(cands: Seq<Seq<char>>) -> Seq<char> {
    let shown = if cands.len() < 5 {
        cands
    } else {
        cands.take(5)
    };
    "Could not find opendrop-renderer executable. Searched:\n  - "@ + spec_searched_body(shown)
}

/// The failure report of the search.
pub fn renderer_not_found_message(candidates: &Vec<String>) -> (r: String)
    ensures
        r@ == spec_not_found_message(candidates.deep_view()),
{
    let ghost cv = candidates.deep_view();
    let mut s = String::from_str("Could not find opendrop-renderer executable. Searched:\n  - ");
    let ghost head = s@;
    let shown: usize = if candidates.len() < 5 {
        candidates.len()
    } else {
        5
    };
    let ghost shown_seq = if cv.len() < 5 {
        cv
    } else {
        cv.take(5)
    };
    let mut i: usize = 0;
    proof {
        assert(cv.len() == candidates@.len());
        assert(forall|k: int| 0 <= k < candidates@.len() ==> cv[k] == candidates@[k]@);
        assert(shown_seq.len() == shown);
        assert(forall|k: int| 0 <= k < shown ==> shown_seq[k] == cv[k]);
        assert(shown_seq.take(0) =~= Seq::<Seq<char>>::empty());
        assert(s@ =~= head + spec_searched_body(shown_seq.take(0)));
    }
    while i < shown
        invariant
            cv == candidates.deep_view(),
            cv.len() == candidates@.len(),
            forall|k: int| 0 <= k < candidates@.len() ==> cv[k] == candidates@[k]@,
            shown <= candidates@.len(),
            shown_seq.len() == shown,
            forall|k: int| 0 <= k < shown ==> shown_seq[k] == cv[k],
            i <= shown,
            s@ == head + spec_searched_body(shown_seq.take(i as int)),
        decreases shown - i,
    {
        proof {
            assert(shown_seq.take(i as int + 1).drop_last() =~= shown_seq.take(i as int));
            assert(shown_seq.take(i as int + 1).last() == shown_seq[i as int]);
        }
        if i > 0 {
            s.append("\n  - ");
        }
        s.append(candidates[i].as_str());
        proof {
            assert(s@ =~= head + spec_searched_body(shown_seq.take(i as int + 1)));
        }
        i = i + 1;
    }
    proof {
        assert(shown_seq.take(shown as int) =~= shown_seq);
    }
    s
}

/// Number of audio commands the pump reports for a tick, as the caller
/// counts successful writes: one per audio line whose write succeeded.
pub fn count_sent(successes: &Vec<bool>) -> (r: u64)
    requires
        successes@.len() <= 0xffff_ffff,
    ensures
        r == spec_count_true(successes@),
{
    let mut n: u64 = 0;
    let mut i: usize = 0;
    while i < successes.len()
        invariant
            successes@.len() <= 0xffff_ffff,
            i <= successes@.len(),
            n == spec_count_true(successes@.take(i as int)),
            n <= i,
        decreases successes@.len() - i,
    {
        proof {
            assert(successes@.take(i as int + 1).drop_last() =~= successes@.take(i as int));
        }
        if successes[i] {
            n = n + 1;
        }
        i = i + 1;
    }
    proof {
        assert(successes@.take(successes@.len() as int) =~= successes@);
    }
    n
}

/// How many entries are true.
pub open spec fn spec_count_true(s: Seq<bool>) -> nat
    decreases s.len(),
{
    if s.len() == 0 {
        0
    } else {
        spec_count_true(s.drop_last()) + (if s.last() {
            1nat
        } else {
            0nat
        })
    }
}

} // verus!
