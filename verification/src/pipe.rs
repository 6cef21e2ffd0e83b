//! Where the Discord IPC socket may be found.
//!
//! Discord listens on `discord-ipc-0` to `discord-ipc-9` in a few directories.
//! This module lists the candidate prefixes and the order in which the full
//! paths are tried; looking at the file system is left to the caller.

use vstd::prelude::*;
use vstd::string::StrSliceExecFns;
use vstd::string::StringExecFns;

use crate::utils::opt_string_view;

verus! {

/// The number of socket indices Discord may use.
pub const PIPE_INDICES: usize = 10;

/// The name prefix of a snap package directory of Discord.
pub open spec fn snap_prefix() -> Seq<char> {
    "snap.discord"@
}

/// The text of a decimal digit.
pub open spec fn digit_text(i: int) -> Seq<char> {
    if i == 0 {
        "0"@
    } else if i == 1 {
        "1"@
    } else if i == 2 {
        "2"@
    } else if i == 3 {
        "3"@
    } else if i == 4 {
        "4"@
    } else if i == 5 {
        "5"@
    } else if i == 6 {
        "6"@
    } else if i == 7 {
        "7"@
    } else if i == 8 {
        "8"@
    } else {
        "9"@
    }
}

/// The candidate prefixes that a base directory gives: the plain one, the
/// flatpak one, and one per snap directory of Discord in it.
pub open spec fn unix_prefixes(base: Seq<char>, snap_dirs: Seq<Seq<char>>) -> Seq<Seq<char>> {
    seq![base + "/discord-ipc-"@, base + "/app/com.discordapp.Discord/discord-ipc-"@] + snap_dirs.map_values(
        |name: Seq<char>| base + "/"@ + name + "/discord-ipc-"@,
    )
}

/// No candidate occurs twice.
pub open spec fn distinct(s: Seq<Seq<char>>) -> bool {
    forall|i: int, j: int| 0 <= i < j < s.len() ==> #[trigger] s[i] != #[trigger] s[j]
}

/// The candidates as a set.
pub open spec fn candidate_set(v: Seq<String>) -> Set<Seq<char>> {
    v.map_values(|s: String| s@).to_set()
}

/// The view of a list of strings.
pub open spec fn strings_view(v: Seq<String>) -> Seq<Seq<char>> {
    v.map_values(|s: String| s@)
}

/// `paths` is the order in which the socket paths are tried: every candidate
/// with index 0, then every candidate with index 1, and so on up to 9.
pub open spec fn is_search_order(paths: Seq<Seq<char>>, c: Seq<Seq<char>>) -> bool {
    &&& paths.len() == PIPE_INDICES * c.len()
    &&& forall|i: int, j: int|
        0 <= i < PIPE_INDICES && 0 <= j < c.len() ==> #[trigger] paths[i * c.len() + j] == c[j]
            + digit_text(i)
}

/// The candidate prefix on Windows: the named pipe of Discord.
pub fn windows_candidates() -> (c: Vec<String>)
    ensures
        strings_view(c@) == seq!["\\\\?\\pipe\\discord-ipc-"@],
{
    let mut c: Vec<String> = Vec::new();
    c.push(String::from_str("\\\\?\\pipe\\discord-ipc-"));
    assert(strings_view(c@) =~= seq!["\\\\?\\pipe\\discord-ipc-"@]);
    c
}

/// The optional text as a list of at most one element.
pub open spec fn opt_seq(o: Option<Seq<char>>) -> Seq<Seq<char>> {
    match o {
        Some(t) => seq![t],
        None => Seq::empty(),
    }
}

/// The directories searched on Unix, in order: `/tmp`, then `$TMPDIR`, then
/// `$XDG_RUNTIME_DIR`, then `/run/user/$UID`, each where the variable is set.
pub open spec fn unix_base_dirs_spec(
    tmpdir: Option<Seq<char>>,
    xdg_runtime_dir: Option<Seq<char>>,
    uid: Option<Seq<char>>,
) -> Seq<Seq<char>> {
    seq!["/tmp"@] + opt_seq(tmpdir) + opt_seq(xdg_runtime_dir) + opt_seq(
        match uid {
            Some(u) => Some("/run/user/"@ + u),
            None => None,
        },
    )
}

/// The directories searched on Unix, from the values of `TMPDIR`,
/// `XDG_RUNTIME_DIR` and `UID` (`None` where unset).
pub fn unix_base_dirs(tmpdir: Option<String>, xdg_runtime_dir: Option<String>, uid: Option<String>) -> (dirs: Vec<String>)
    ensures
        strings_view(dirs@) == unix_base_dirs_spec(
            opt_string_view(tmpdir),
            opt_string_view(xdg_runtime_dir),
            opt_string_view(uid),
        ),
{
    let mut dirs: Vec<String> = Vec::new();
    dirs.push(String::from_str("/tmp"));
    let ghost s0 = strings_view(dirs@);
    assert(s0 =~= seq!["/tmp"@]);
    if let Some(t) = tmpdir {
        dirs.push(t);
    }
    let ghost s1 = strings_view(dirs@);
    assert(s1 =~= s0 + opt_seq(opt_string_view(tmpdir)));
    if let Some(x) = xdg_runtime_dir {
        dirs.push(x);
    }
    let ghost s2 = strings_view(dirs@);
    assert(s2 =~= s1 + opt_seq(opt_string_view(xdg_runtime_dir)));
    let ghost uid_view = opt_string_view(uid);
    if let Some(u) = uid {
        dirs.push(concat("/run/user/", u.as_str()));
    }
    assert(strings_view(dirs@) =~= s2 + opt_seq(
        match uid_view {
            Some(u) => Some("/run/user/"@ + u),
            None => None,
        },
    ));
    dirs
}

/// Each variable that is set adds its own directory, whatever the others are:
/// the list starts with `/tmp`, holds `$TMPDIR`, `$XDG_RUNTIME_DIR` and
/// `/run/user/$UID` for each one set, and nothing else.
pub proof fn lemma_base_dirs_independent(
    tmpdir: Option<Seq<char>>,
    xdg_runtime_dir: Option<Seq<char>>,
    uid: Option<Seq<char>>,
)
    ensures
        unix_base_dirs_spec(tmpdir, xdg_runtime_dir, uid)[0] == "/tmp"@,
        tmpdir matches Some(t) ==> unix_base_dirs_spec(tmpdir, xdg_runtime_dir, uid).contains(t),
        xdg_runtime_dir matches Some(x) ==> unix_base_dirs_spec(tmpdir, xdg_runtime_dir, uid).contains(x),
        uid matches Some(u) ==> unix_base_dirs_spec(tmpdir, xdg_runtime_dir, uid).contains("/run/user/"@ + u),
        unix_base_dirs_spec(tmpdir, xdg_runtime_dir, uid).len() == 1 + (if tmpdir is Some {
            1int
        } else {
            0
        }) + (if xdg_runtime_dir is Some {
            1int
        } else {
            0
        }) + (if uid is Some {
            1int
        } else {
            0
        }),
        forall|i: int|
            0 <= i < unix_base_dirs_spec(tmpdir, xdg_runtime_dir, uid).len() ==> {
                let d = #[trigger] unix_base_dirs_spec(tmpdir, xdg_runtime_dir, uid)[i];
                d == "/tmp"@ || Some(d) == tmpdir || Some(d) == xdg_runtime_dir || (uid matches Some(
                    u,
                ) && d == "/run/user/"@ + u)
            },
{
    let ut = match uid {
        Some(u) => Some("/run/user/"@ + u),
        None => None,
    };
    let a = seq!["/tmp"@];
    let b = opt_seq(tmpdir);
    let c = opt_seq(xdg_runtime_dir);
    let d = opt_seq(ut);
    let r = unix_base_dirs_spec(tmpdir, xdg_runtime_dir, uid);
    assert(r == a + b + c + d);
    assert(r[0] == a[0]);
    if let Some(t) = tmpdir {
        assert(r[1] == t);
    }
    if let Some(x) = xdg_runtime_dir {
        assert(r[1 + b.len() as int] == x);
    }
    if let Some(u) = ut {
        assert(r[1 + b.len() as int + c.len() as int] == u);
    }
    assert forall|i: int| 0 <= i < r.len() implies {
        let e = #[trigger] r[i];
        e == "/tmp"@ || Some(e) == tmpdir || Some(e) == xdg_runtime_dir || (uid matches Some(u)
            && e == "/run/user/"@ + u)
    } by {
        if i == 0 {
        } else if i < 1 + b.len() {
            assert(r[i] == b[i - 1]);
        } else if i < 1 + b.len() + c.len() {
            assert(r[i] == c[i - 1 - b.len()]);
        } else {
            assert(r[i] == d[i - 1 - b.len() - c.len()]);
        }
    }
}

/// Whether a directory entry is named like a snap package of Discord.
pub fn is_snap_discord_name(name: &str) -> (b: bool)
    ensures
        b == (name@.len() >= snap_prefix().len() && name@.subrange(0, snap_prefix().len() as int)
            == snap_prefix()),
{
    let prefix = "snap.discord";
    let plen = prefix.unicode_len();
    if name.unicode_len() < plen {
        return false;
    }
    let head = name.substring_char(0, plen).to_owned();
    let p = prefix.to_owned();
    head == p
}

/// Adds a candidate, unless it is there already.
pub fn insert_candidate(candidates: &mut Vec<String>, c: String)
    requires
        distinct(strings_view(old(candidates)@)),
    ensures
        distinct(strings_view(final(candidates)@)),
        candidate_set(final(candidates)@) == candidate_set(old(candidates)@).insert(c@),
        strings_view(old(candidates)@).contains(c@) ==> final(candidates)@ == old(candidates)@,
        !strings_view(old(candidates)@).contains(c@) ==> final(candidates)@ == old(candidates)@.push(c),
{
    let ghost orig = candidates@;
    let mut i: usize = 0;
    while i < candidates.len()
        invariant
            candidates@ == orig,
            distinct(strings_view(orig)),
            i <= candidates@.len(),
            forall|j: int| 0 <= j < i ==> candidates@[j]@ != c@,
        decreases candidates@.len() - i,
    {
        if candidates[i] == c {
            proof {
                assert(strings_view(candidates@)[i as int] == c@);
                assert(candidate_set(candidates@).contains(c@));
                assert(candidate_set(candidates@).insert(c@) =~= candidate_set(candidates@));
            }
            return;
        }
        i = i + 1;
    }
    let ghost before = candidates@;
    proof {
        assert(!strings_view(before).contains(c@));
    }
    candidates.push(c);
    proof {
        assert(strings_view(candidates@) =~= strings_view(before).push(c@));
        assert(candidate_set(candidates@) =~= candidate_set(before).insert(c@)) by {
            assert(strings_view(candidates@).to_set() =~= strings_view(before).to_set().insert(c@)) by {
                strings_view(before).lemma_push_to_set_commute(c@);
            }
        }
    }
}

/// Appends texts to a copy of `base`.
fn concat(base: &str, rest: &str) -> (s: String)
    ensures
        s@ == base@ + rest@,
{
    let mut s = String::from_str(base);
    s.append(rest);
    s
}

/// Adds the candidate prefixes of a base directory: the plain one, the flatpak
/// one, and one per snap directory of Discord found in it.
pub fn add_unix_candidates(candidates: &mut Vec<String>, base_dir: &str, snap_dirs: &Vec<String>)
    requires
        distinct(strings_view(old(candidates)@)),
    ensures
        distinct(strings_view(final(candidates)@)),
        candidate_set(final(candidates)@) == candidate_set(old(candidates)@).union(
            unix_prefixes(base_dir@, strings_view(snap_dirs@)).to_set(),
        ),
{
    let ghost start = candidate_set(candidates@);
    let ghost prefixes = unix_prefixes(base_dir@, strings_view(snap_dirs@));
    insert_candidate(candidates, concat(base_dir, "/discord-ipc-"));
    insert_candidate(candidates, concat(base_dir, "/app/com.discordapp.Discord/discord-ipc-"));
    proof {
        assert(candidate_set(candidates@) =~= start.union(prefixes.subrange(0, 2).to_set())) by {
            assert(prefixes.subrange(0, 2) =~= seq![prefixes[0], prefixes[1]]);
            assert(seq![prefixes[0], prefixes[1]].to_set() =~= set![prefixes[0], prefixes[1]]) by {
                let t = seq![prefixes[0], prefixes[1]];
                assert forall|x| t.to_set().contains(x) <==> set![prefixes[0], prefixes[1]].contains(x) by {
                    if x == prefixes[0] {
                        assert(t[0] == x);
                    }
                    if x == prefixes[1] {
                        assert(t[1] == x);
                    }
                }
            }
        }
    }
    let mut i: usize = 0;
    while i < snap_dirs.len()
        invariant
            i <= snap_dirs@.len(),
            prefixes == unix_prefixes(base_dir@, strings_view(snap_dirs@)),
            prefixes.len() == 2 + snap_dirs@.len(),
            distinct(strings_view(candidates@)),
            candidate_set(candidates@) == start.union(prefixes.subrange(0, 2 + i).to_set()),
        decreases snap_dirs@.len() - i,
    {
        let with_slash = concat(base_dir, "/");
        let with_name = concat(with_slash.as_str(), snap_dirs[i].as_str());
        let c = concat(with_name.as_str(), "/discord-ipc-");
        proof {
            assert(c@ == prefixes[2 + i]);
        }
        insert_candidate(candidates, c);
        proof {
            assert(prefixes.subrange(0, 2 + i + 1) =~= prefixes.subrange(0, 2 + i).push(prefixes[2 + i]));
            prefixes.subrange(0, 2 + i).lemma_push_to_set_commute(prefixes[2 + i]);
            assert(candidate_set(candidates@) =~= start.union(prefixes.subrange(0, 2 + i + 1).to_set()));
        }
        i = i + 1;
    }
    proof {
        assert(prefixes.subrange(0, 2 + snap_dirs@.len() as int) =~= prefixes);
    }
}


/// The text of a decimal digit.
fn digit_str(i: usize) -> (s: &'static str)
    requires
        i < 10,
    ensures
        s@ == digit_text(i as int),
{
    if i == 0 {
        "0"
    } else if i == 1 {
        "1"
    } else if i == 2 {
        "2"
    } else if i == 3 {
        "3"
    } else if i == 4 {
        "4"
    } else if i == 5 {
        "5"
    } else if i == 6 {
        "6"
    } else if i == 7 {
        "7"
    } else if i == 8 {
        "8"
    } else {
        "9"
    }
}

proof fn lemma_index_bounds(a: int, b: int, i: int, n: int)
    requires
        0 <= a < i,
        0 <= b < n,
    ensures
        0 <= a * n + b < i * n,
        (a + 1) * n == a * n + n,
{
    assert(0 <= a * n + b < i * n) by (nonlinear_arith)
        requires
            0 <= a < i,
            0 <= b < n,
    ;
    assert((a + 1) * n == a * n + n) by (nonlinear_arith);
}

/// The socket paths to try, in order: every candidate followed by 0, then every
/// candidate followed by 1, and so on up to 9.
pub fn search_order(candidates: &Vec<String>) -> (paths: Vec<String>)
    requires
        PIPE_INDICES * candidates@.len() <= usize::MAX,
    ensures
        is_search_order(strings_view(paths@), strings_view(candidates@)),
{
    let n = candidates.len();
    let ghost c = strings_view(candidates@);
    let mut paths: Vec<String> = Vec::new();
    let mut i: usize = 0;
    while i < PIPE_INDICES
        invariant
            n == candidates@.len(),
            c == strings_view(candidates@),
            PIPE_INDICES * n <= usize::MAX,
            i <= PIPE_INDICES,
            paths@.len() == i * n,
            forall|a: int, b: int|
                0 <= a < i && 0 <= b < n ==> #[trigger] strings_view(paths@)[a * n + b] == c[b]
                    + digit_text(a),
        decreases PIPE_INDICES - i,
    {
        let digit = digit_str(i);
        let mut j: usize = 0;
        proof {
            assert(i * n + n <= PIPE_INDICES * n) by (nonlinear_arith)
                requires
                    i < PIPE_INDICES,
            ;
        }
        while j < n
            invariant
                n == candidates@.len(),
                c == strings_view(candidates@),
                i < PIPE_INDICES,
                i * n + n <= PIPE_INDICES * n,
                PIPE_INDICES * n <= usize::MAX,
                digit@ == digit_text(i as int),
                j <= n,
                paths@.len() == i * n + j,
                forall|a: int, b: int|
                    0 <= a < i && 0 <= b < n ==> #[trigger] strings_view(paths@)[a * n + b] == c[b]
                        + digit_text(a),
                forall|b: int| 0 <= b < j ==> #[trigger] strings_view(paths@)[i * n + b] == c[b] + digit_text(i as int),
            decreases n - j,
        {
            let p = concat(candidates[j].as_str(), digit);
            let ghost before = paths@;
            paths.push(p);
            proof {
                assert forall|a: int, b: int|
                    0 <= a < i && 0 <= b < n implies #[trigger] strings_view(paths@)[a * n + b] == c[b]
                        + digit_text(a) by {
                    lemma_index_bounds(a, b, i as int, n as int);
                    assert(strings_view(before)[a * n + b] == c[b] + digit_text(a));
                }
                assert forall|b: int| 0 <= b < j + 1 implies #[trigger] strings_view(paths@)[i * n + b]
                    == c[b] + digit_text(i as int) by {
                    if b < j {
                        assert(strings_view(before)[i * n + b] == c[b] + digit_text(i as int));
                    }
                }
            }
            j = j + 1;
        }
        proof {
            assert((i + 1) * n == i * n + n) by (nonlinear_arith);
            assert forall|a: int, b: int|
                0 <= a < i + 1 && 0 <= b < n implies #[trigger] strings_view(paths@)[a * n + b] == c[b]
                    + digit_text(a) by {
                if a == i {
                    assert(strings_view(paths@)[i * n + b] == c[b] + digit_text(i as int));
                }
            }
        }
        i = i + 1;
    }
    paths
}

} // verus!
