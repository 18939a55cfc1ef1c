//! Download path redirection and the persisted preference it consults: the
//! preferred directory as UTF-8 path bytes, loaded from one persisted value
//! and rewritten into each proposed download destination.

use vstd::prelude::*;

verus! {

/// The whitespace bytes that loading strips from a persisted path.
pub open spec fn is_space_byte(b: u8) -> bool {
    b == 32 || b == 9 || b == 10 || b == 13
}

/// A persisted value with its leading whitespace dropped.
pub open spec fn trim_front(s: Seq<u8>) -> Seq<u8>
    decreases s.len(),
{
    if s.len() > 0 && is_space_byte(s[0]) {
        trim_front(s.drop_first())
    } else {
        s
    }
}

/// A persisted value with its trailing whitespace dropped.
pub open spec fn trim_back(s: Seq<u8>) -> Seq<u8>
    decreases s.len(),
{
    if s.len() > 0 && is_space_byte(s.last()) {
        trim_back(s.drop_last())
    } else {
        s
    }
}

/// A persisted value with whitespace dropped on both sides.
pub open spec fn trimmed(s: Seq<u8>) -> Seq<u8> {
    trim_back(trim_front(s))
}

/// The file-name component of a destination path: the suffix after the last
/// separator, or the whole path when it holds none.
pub open spec fn file_name_of(dest: Seq<u8>, sep: u8) -> Seq<u8>
    decreases dest.len(),
{
    if dest.len() == 0 {
        Seq::empty()
    } else if dest.last() == sep {
        Seq::empty()
    } else {
        file_name_of(dest.drop_last(), sep) + seq![dest.last()]
    }
}

/// Where a download goes: the proposed destination when no preference is set
/// or the destination carries no file name; otherwise the preferred directory
/// joined with the proposed file name.
pub open spec fn redirected(pref: Option<Seq<u8>>, dest: Seq<u8>, sep: u8) -> Seq<u8> {
    match pref {
        None => dest,
        Some(dir) => {
            let name = file_name_of(dest, sep);
            if name.len() == 0 {
                dest
            } else if dir.len() > 0 && dir.last() == sep {
                dir + name
            } else {
                dir + seq![sep] + name
            }
        },
    }
}

fn is_space(b: u8) -> (r: bool)
    ensures
        r == is_space_byte(b),
{
    b == 32 || b == 9 || b == 10 || b == 13
}

fn copy_bytes(v: &Vec<u8>) -> (r: Vec<u8>)
    ensures
        r@ == v@,
{
    let mut r: Vec<u8> = Vec::new();
    let mut i: usize = 0;
    while i < v.len()
        invariant
            i <= v@.len(),
            r@ == v@.subrange(0, i as int),
        decreases v@.len() - i,
    {
        r.push(v[i]);
        proof {
            assert(v@.subrange(0, i + 1 as int) =~= v@.subrange(0, i as int).push(v@[i as int]));
        }
        i += 1;
    }
    proof {
        assert(v@.subrange(0, v@.len() as int) =~= v@);
    }
    r
}

/// Strips leading and trailing whitespace from a persisted value, exactly as
/// the load path of the preference store does.
pub fn trim_bytes(s: &Vec<u8>) -> (r: Vec<u8>)
    ensures
        r@ == trimmed(s@),
{
    let n = s.len();
    let mut lo: usize = 0;
    proof {
        assert(s@.subrange(0, n as int) =~= s@);
    }
    while lo < n && is_space(s[lo])
        invariant
            lo <= n,
            n == s@.len(),
            trim_front(s@) == trim_front(s@.subrange(lo as int, n as int)),
        decreases n - lo,
    {
        proof {
            assert(s@.subrange(lo as int, n as int).drop_first() =~= s@.subrange(
                lo + 1 as int,
                n as int,
            ));
        }
        lo += 1;
    }
    proof {
        assert(trim_front(s@) == s@.subrange(lo as int, n as int));
    }
    let mut hi: usize = n;
    while hi > lo && is_space(s[hi - 1])
        invariant
            lo <= hi <= n,
            n == s@.len(),
            trim_back(s@.subrange(lo as int, n as int)) == trim_back(
                s@.subrange(lo as int, hi as int),
            ),
        decreases hi,
    {
        proof {
            assert(s@.subrange(lo as int, hi as int).drop_last() =~= s@.subrange(
                lo as int,
                hi - 1 as int,
            ));
        }
        hi -= 1;
    }
    proof {
        assert(trimmed(s@) == s@.subrange(lo as int, hi as int));
    }
    let mut r: Vec<u8> = Vec::new();
    let mut i: usize = lo;
    proof {
        assert(r@ =~= s@.subrange(lo as int, lo as int));
    }
    while i < hi
        invariant
            lo <= i <= hi <= n,
            n == s@.len(),
            r@ == s@.subrange(lo as int, i as int),
        decreases hi - i,
    {
        r.push(s[i]);
        proof {
            assert(s@.subrange(lo as int, i + 1 as int) =~= s@.subrange(lo as int, i as int).push(
                s@[i as int],
            ));
        }
        i += 1;
    }
    r
}

/// A persisted value that already carries no surrounding whitespace survives
/// the load path's trimming unchanged; with the store path writing the path
/// bytes as they stand, writing a directory path and reloading it yields the
/// same path back.
pub proof fn lemma_preference_round_trip(dir: Seq<u8>)
    requires
        dir.len() == 0 || (!is_space_byte(dir[0]) && !is_space_byte(dir[dir.len() - 1])),
    ensures
        trimmed(dir) == dir,
{
}

/// Finds where the file-name component of a destination starts.
fn file_name_start(dest: &Vec<u8>, sep: u8) -> (i: usize)
    ensures
        i <= dest@.len(),
        file_name_of(dest@, sep) == dest@.subrange(i as int, dest@.len() as int),
{
    let n = dest.len();
    let mut i: usize = n;
    proof {
        assert(dest@.subrange(0, n as int) =~= dest@);
        assert(file_name_of(dest@, sep) + dest@.subrange(n as int, n as int) =~= file_name_of(
            dest@,
            sep,
        ));
    }
    while i > 0 && dest[i - 1] != sep
        invariant
            i <= n,
            n == dest@.len(),
            file_name_of(dest@, sep) == file_name_of(dest@.subrange(0, i as int), sep)
                + dest@.subrange(i as int, n as int),
        decreases i,
    {
        proof {
            let pre = dest@.subrange(0, i as int);
            assert(pre.last() == dest@[i - 1 as int]);
            assert(pre.drop_last() =~= dest@.subrange(0, i - 1 as int));
            assert(file_name_of(dest@.subrange(0, i - 1 as int), sep) + seq![dest@[i - 1 as int]]
                + dest@.subrange(i as int, n as int) =~= file_name_of(
                dest@.subrange(0, i - 1 as int),
                sep,
            ) + dest@.subrange(i - 1 as int, n as int));
        }
        i -= 1;
    }
    proof {
        if i == 0 {
            assert(file_name_of(dest@.subrange(0, 0), sep) + dest@.subrange(0, n as int)
                =~= dest@.subrange(0, n as int));
            assert(file_name_of(dest@, sep) =~= dest@.subrange(0, n as int));
        } else {
            let pre = dest@.subrange(0, i as int);
            assert(pre.last() == sep);
            assert(file_name_of(pre, sep) + dest@.subrange(i as int, n as int) =~= dest@.subrange(
                i as int,
                n as int,
            ));
            assert(file_name_of(dest@, sep) =~= dest@.subrange(i as int, n as int));
        }
    }
    i
}

/// The user's preferred download directory, if one was ever chosen or loaded.
pub struct DownloadPreference {
    dir: Option<Vec<u8>>,
}

/// The answer to one download request: where the file goes, and that the
/// download proceeds.
pub struct DownloadDecision {
    pub destination: Vec<u8>,
    pub proceed: bool,
}

impl DownloadPreference {
    /// The directory currently preferred, as path bytes.
    pub closed spec fn preferred(&self) -> Option<Seq<u8>> {
        match self.dir {
            Some(d) => Some(d@),
            None => None,
        }
    }

    /// Before any load or choice, no preference is set.
    pub fn new() -> (p: DownloadPreference)
        ensures
            p.preferred() is None,
    {
        DownloadPreference { dir: None }
    }

    /// Adopts the persisted value, if the persisted file existed: its content
    /// trimmed of surrounding whitespace. Absence of the file leaves the
    /// preference unset.
    pub fn load(content: Option<Vec<u8>>) -> (p: DownloadPreference)
        ensures
            p.preferred() == match content {
                Some(c) => Some(trimmed(c@)),
                None => None::<Seq<u8>>,
            },
    {
        match content {
            Some(c) => DownloadPreference { dir: Some(trim_bytes(&c)) },
            None => DownloadPreference { dir: None },
        }
    }

    /// The currently preferred directory, copied out.
    pub fn preferred_dir(&self) -> (r: Option<Vec<u8>>)
        ensures
            match r {
                Some(v) => self.preferred() == Some(v@),
                None => self.preferred() is None,
            },
    {
        match &self.dir {
            Some(d) => Some(copy_bytes(d)),
            None => None,
        }
    }

    /// Replaces the preference with a chosen directory and hands back the
    /// exact bytes to persist, so that the observed value is always one that
    /// was fully committed.
    pub fn set_directory(&mut self, dir: Vec<u8>) -> (persist: Vec<u8>)
        ensures
            final(self).preferred() == Some(dir@),
            persist@ == dir@,
    {
        let persist = copy_bytes(&dir);
        self.dir = Some(dir);
        persist
    }

    /// Answers one download request: always proceed; with a preference set
    /// and a file name present, the destination becomes the preferred
    /// directory joined with that file name, else it stands unchanged.
    pub fn redirect(&self, dest: &Vec<u8>, sep: u8) -> (r: DownloadDecision)
        ensures
            r.proceed == true,
            r.destination@ == redirected(self.preferred(), dest@, sep),
    {
        match &self.dir {
            None => DownloadDecision { destination: copy_bytes(dest), proceed: true },
            Some(dir) => {
                let start = file_name_start(dest, sep);
                if start == dest.len() {
                    return DownloadDecision { destination: copy_bytes(dest), proceed: true };
                }
                let mut out = copy_bytes(dir);
                if !(dir.len() > 0 && dir[dir.len() - 1] == sep) {
                    out.push(sep);
                }
                proof {
                    if dir@.len() > 0 && dir@.last() == sep {
                        assert(out@ =~= dir@ + dest@.subrange(start as int, start as int));
                    } else {
                        assert(out@ =~= (dir@ + seq![sep]) + dest@.subrange(
                            start as int,
                            start as int,
                        ));
                    }
                }
                let mut i: usize = start;
                while i < dest.len()
                    invariant
                        start <= i <= dest@.len(),
                        out@ == (if dir@.len() > 0 && dir@.last() == sep {
                            dir@
                        } else {
                            dir@ + seq![sep]
                        }) + dest@.subrange(start as int, i as int),
                    decreases dest@.len() - i,
                {
                    out.push(dest[i]);
                    proof {
                        assert(dest@.subrange(start as int, i + 1 as int) =~= dest@.subrange(
                            start as int,
                            i as int,
                        ).push(dest@[i as int]));
                        assert((if dir@.len() > 0 && dir@.last() == sep {
                            dir@
                        } else {
                            dir@ + seq![sep]
                        }) + dest@.subrange(start as int, i + 1 as int) =~= (if dir@.len() > 0
                            && dir@.last() == sep {
                            dir@
                        } else {
                            dir@ + seq![sep]
                        }) + dest@.subrange(start as int, i as int).push(dest@[i as int]));
                    }
                    i += 1;
                }
                proof {
                    assert(file_name_of(dest@, sep).len() == dest@.len() - start);
                    if dir@.len() > 0 && dir@.last() == sep {
                        assert(out@ =~= dir@ + file_name_of(dest@, sep));
                    } else {
                        assert(out@ =~= dir@ + seq![sep] + file_name_of(dest@, sep));
                    }
                }
                DownloadDecision { destination: out, proceed: true }
            },
        }
    }
}

} // verus!
