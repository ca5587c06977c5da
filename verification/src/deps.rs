//! Naming logic for compiled external dependencies: recover a library name
//! from a compiled file name, and record the mapping from library names to
//! compiled files, one file per library.

use vstd::prelude::*;

verus! {

/// The file name without its optional `lib` prefix.
pub open spec fn stripped(remove_pre: bool, s: Seq<char>) -> Seq<char> {
    if remove_pre {
        s.subrange(3, s.len() as int)
    } else {
        s
    }
}

/// Recover the library name from a compiled file name (already without its
/// extension): drop the `lib` prefix when asked to, then drop the hash
/// suffix introduced by the last `-`.  The callers reject file names
/// without the expected prefix or without a `-`.
#[verifier::loop_isolation(false)]
pub fn compiled_to_lib_name(remove_pre: bool, no_ext_filename: String) -> (r: String)
    requires
        remove_pre ==> no_ext_filename@.len() > 3 && no_ext_filename@[0] == 'l'
            && no_ext_filename@[1] == 'i' && no_ext_filename@[2] == 'b',
        ({
            let f = stripped(remove_pre, no_ext_filename@);
            exists|i: int| 0 < i < f.len() && f[i] == '-'
        }),
    ensures
        ({
            let f = stripped(remove_pre, no_ext_filename@);
            exists|j: int|
                0 < j < f.len() && f[j] == '-' && r@ == f.subrange(0, j) && (forall|k: int|
                    j < k < f.len() ==> f[k] != '-')
        }),
{
    let s: &str = no_ext_filename.as_str();
    let n = s.unicode_len();
    let lo: usize = if remove_pre {
        3
    } else {
        0
    };
    let ghost f = stripped(remove_pre, no_ext_filename@);
    proof {
        let w = choose|i: int| 0 < i < f.len() && f[i] == '-';
        assert(s@[lo + w] == '-');
        assert(n >= lo + 2);
    }
    let mut i: usize = n - 1;
    while i > lo
        invariant
            lo <= i < n,
            forall|k: int| i < k < n ==> s@[k] != '-',
        decreases i,
    {
        if s.get_char(i) == '-' {
            let prefix = s.substring_char(lo, i);
            let r = prefix.to_owned();
            proof {
                assert(r@ =~= f.subrange(0, i - lo));
                assert(f[i - lo] == '-');
                assert forall|k: int| i - lo < k < f.len() implies f[k] != '-' by {
                    assert(f[k] == s@[lo + k]);
                }
            }
            return r;
        }
        i = i - 1;
    }
    proof {
        let w = choose|i: int| 0 < i < f.len() && f[i] == '-';
        assert(s@[lo + w] == '-');
        assert(false);
    }
    unreached()
}

/// An ordered map from library names to the compiled file chosen for them.
/// Keys are unique: recording a second file for the same library is the
/// error the callers must rule out first.
#[derive(Debug)]
pub struct LibMap {
    pub entries: Vec<(String, String)>,
}

/// View of the map: the recorded pairs, in insertion order.
pub open spec fn view_lib_map(m: LibMap) -> Seq<(Seq<char>, Seq<char>)> {
    Seq::new(m.entries@.len(), |i: int| (m.entries@[i].0@, m.entries@[i].1@))
}

impl View for LibMap {
    type V = Seq<(Seq<char>, Seq<char>)>;

    open spec fn view(&self) -> Seq<(Seq<char>, Seq<char>)> {
        view_lib_map(*self)
    }
}

/// Whether the map holds an entry for the given library name.
pub open spec fn map_contains_key(m: Seq<(Seq<char>, Seq<char>)>, k: Seq<char>) -> bool {
    exists|i: int| 0 <= i < m.len() && m[i].0 == k
}

impl LibMap {
    /// The empty map.
    pub fn new() -> (m: LibMap)
        ensures
            m@ == Seq::<(Seq<char>, Seq<char>)>::empty(),
    {
        let m = LibMap { entries: Vec::new() };
        proof {
            assert(m@ =~= Seq::<(Seq<char>, Seq<char>)>::empty());
        }
        m
    }

    /// Whether an entry for the given library name was recorded.
    #[verifier::loop_isolation(false)]
    pub fn contains_key(&self, lib_name: &String) -> (r: bool)
        ensures
            r == map_contains_key(self@, lib_name@),
    {
        let mut i: usize = 0;
        while i < self.entries.len()
            invariant
                i <= self.entries@.len(),
                forall|j: int| 0 <= j < i ==> self@[j].0 != lib_name@,
            decreases self.entries@.len() - i,
        {
            if self.entries[i].0 == *lib_name {
                proof {
                    assert(self@[i as int].0 == lib_name@);
                }
                return true;
            }
            i = i + 1;
        }
        false
    }
}

/// Record the compiled file for a library.  There must not already be
/// another compiled file for the same library: finding two is the
/// stale-build error the caller reports before calling.
pub fn insert_if_not_present(map: &mut LibMap, lib_name: String, filename: String)
    requires
        !map_contains_key(old(map)@, lib_name@),
    ensures
        final(map)@ == old(map)@.push((lib_name@, filename@)),
{
    let ghost m0 = map@;
    map.entries.push((lib_name, filename));
    proof {
        assert(final(map)@ =~= m0.push((final(map).entries@[final(map).entries@.len() - 1].0@,
        final(map).entries@[final(map).entries@.len() - 1].1@)));
    }
}

} // verus!
