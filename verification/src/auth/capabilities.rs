//! What an authorization is allowed to do.

use crate::text::same_text;
use vstd::prelude::*;

verus! {

/// How many capabilities there are.
pub const CAPABILITY_COUNT: u8 = 11;

/// The capabilities of an authorization. The service writes them as a list of names.
#[derive(Clone, Copy, PartialEq, Eq, Structural, Debug)]
pub struct Capabilities {
    pub list_keys: bool,
    pub write_keys: bool,
    pub delete_keys: bool,
    pub list_buckets: bool,
    pub write_buckets: bool,
    pub delete_buckets: bool,
    pub list_files: bool,
    pub read_files: bool,
    pub share_files: bool,
    pub write_files: bool,
    pub delete_files: bool,
}

/// Goes through the names of the capabilities that are set.
#[derive(Clone, Copy, Debug)]
pub struct CapabilitiesIter {
    c: Capabilities,
    i: u8,
}

/// The name of the capability with the number `k`, counted from 1 in the order in
/// which the service lists them.
pub open spec fn spec_name(k: int) -> Seq<char> {
    if k == 1 {
        "listKeys"@
    } else if k == 2 {
        "writeKeys"@
    } else if k == 3 {
        "deleteKeys"@
    } else if k == 4 {
        "listBuckets"@
    } else if k == 5 {
        "writeBuckets"@
    } else if k == 6 {
        "deleteBuckets"@
    } else if k == 7 {
        "listFiles"@
    } else if k == 8 {
        "readFiles"@
    } else if k == 9 {
        "shareFiles"@
    } else if k == 10 {
        "writeFiles"@
    } else {
        "deleteFiles"@
    }
}

/// The name of the capability with the number `k`.
pub fn name_of(k: u8) -> (name: &'static str)
    requires
        1 <= k <= CAPABILITY_COUNT,
    ensures
        name@ == spec_name(k as int),
{
    if k == 1 {
        "listKeys"
    } else if k == 2 {
        "writeKeys"
    } else if k == 3 {
        "deleteKeys"
    } else if k == 4 {
        "listBuckets"
    } else if k == 5 {
        "writeBuckets"
    } else if k == 6 {
        "deleteBuckets"
    } else if k == 7 {
        "listFiles"
    } else if k == 8 {
        "readFiles"
    } else if k == 9 {
        "shareFiles"
    } else if k == 10 {
        "writeFiles"
    } else {
        "deleteFiles"
    }
}

/// The length and the first character of a name tell the names apart.
pub proof fn lemma_names_differ()
    ensures
        forall|j: int, k: int|
            1 <= j <= CAPABILITY_COUNT && 1 <= k <= CAPABILITY_COUNT && j != k ==> spec_name(j)
                != spec_name(k),
{
    reveal_strlit("listKeys");
    reveal_strlit("writeKeys");
    reveal_strlit("deleteKeys");
    reveal_strlit("listBuckets");
    reveal_strlit("writeBuckets");
    reveal_strlit("deleteBuckets");
    reveal_strlit("listFiles");
    reveal_strlit("readFiles");
    reveal_strlit("shareFiles");
    reveal_strlit("writeFiles");
    reveal_strlit("deleteFiles");
    assert forall|j: int, k: int|
        1 <= j <= CAPABILITY_COUNT && 1 <= k <= CAPABILITY_COUNT && j != k implies spec_name(j)
            != spec_name(k) by {
        let a = spec_name(j);
        let b = spec_name(k);
        assert(a.len() != b.len() || a[0] != b[0]);
    }
}

/// One if the flag is set, else zero.
pub open spec fn bit(flag: bool) -> nat {
    if flag {
        1
    } else {
        0
    }
}

fn count(flag: bool) -> (n: usize)
    ensures
        n == bit(flag),
        n <= 1,
{
    if flag {
        1
    } else {
        0
    }
}

impl Capabilities {
    /// Whether the capability with the number `k` is set.
    pub open spec fn flag(self, k: int) -> bool {
        if k == 1 {
            self.list_keys
        } else if k == 2 {
            self.write_keys
        } else if k == 3 {
            self.delete_keys
        } else if k == 4 {
            self.list_buckets
        } else if k == 5 {
            self.write_buckets
        } else if k == 6 {
            self.delete_buckets
        } else if k == 7 {
            self.list_files
        } else if k == 8 {
            self.read_files
        } else if k == 9 {
            self.share_files
        } else if k == 10 {
            self.write_files
        } else if k == 11 {
            self.delete_files
        } else {
            false
        }
    }

    /// The capabilities with the capability number `k` set to `value`.
    pub open spec fn with_flag(self, k: int, value: bool) -> Capabilities {
        if k == 1 {
            Capabilities { list_keys: value, ..self }
        } else if k == 2 {
            Capabilities { write_keys: value, ..self }
        } else if k == 3 {
            Capabilities { delete_keys: value, ..self }
        } else if k == 4 {
            Capabilities { list_buckets: value, ..self }
        } else if k == 5 {
            Capabilities { write_buckets: value, ..self }
        } else if k == 6 {
            Capabilities { delete_buckets: value, ..self }
        } else if k == 7 {
            Capabilities { list_files: value, ..self }
        } else if k == 8 {
            Capabilities { read_files: value, ..self }
        } else if k == 9 {
            Capabilities { share_files: value, ..self }
        } else if k == 10 {
            Capabilities { write_files: value, ..self }
        } else if k == 11 {
            Capabilities { delete_files: value, ..self }
        } else {
            self
        }
    }

    /// How many of the capabilities with the numbers 1 to `k` are set.
    pub open spec fn count_to(self, k: int) -> nat
        decreases k,
    {
        if k <= 0 {
            0
        } else {
            self.count_to(k - 1) + bit(self.flag(k))
        }
    }

    /// How many capabilities are set.
    pub open spec fn spec_len(self) -> nat {
        self.count_to(CAPABILITY_COUNT as int)
    }

    /// Between none and all of the capabilities are set: none exactly when no flag
    /// is set, all exactly when every flag is.
    pub proof fn lemma_count_to(self, k: int)
        requires
            0 <= k <= CAPABILITY_COUNT,
        ensures
            self.count_to(k) <= k,
            self.count_to(k) == 0 <==> forall|j: int| 1 <= j <= k ==> !self.flag(j),
            self.count_to(k) == k <==> forall|j: int| 1 <= j <= k ==> self.flag(j),
        decreases k,
    {
        if k > 0 {
            self.lemma_count_to(k - 1);
            if self.count_to(k) == 0 {
                assert forall|j: int| 1 <= j <= k implies !self.flag(j) by {
                    if j < k {
                    }
                }
            }
            if self.count_to(k) == k {
                assert forall|j: int| 1 <= j <= k implies self.flag(j) by {
                    if j < k {
                    }
                }
            }
        }
    }

    /// The names of the capabilities that are set and whose number is above `from`,
    /// in the order of their numbers.
    pub open spec fn names_after(self, from: int) -> Seq<Seq<char>>
        decreases CAPABILITY_COUNT - from,
    {
        if from >= CAPABILITY_COUNT || from < 0 {
            Seq::empty()
        } else if self.flag(from + 1) {
            seq![spec_name(from + 1)] + self.names_after(from + 1)
        } else {
            self.names_after(from + 1)
        }
    }

    /// The names of the capabilities that are set, as the service lists them.
    pub open spec fn spec_names(self) -> Seq<Seq<char>> {
        self.names_after(0)
    }

    /// No capability.
    pub fn empty() -> (c: Capabilities)
        ensures
            forall|k: int| !c.flag(k),
            c.spec_len() == 0,
    {
        let c = Capabilities {
            list_keys: false,
            write_keys: false,
            delete_keys: false,
            list_buckets: false,
            write_buckets: false,
            delete_buckets: false,
            list_files: false,
            read_files: false,
            share_files: false,
            write_files: false,
            delete_files: false,
        };
        proof {
            c.lemma_count_to(CAPABILITY_COUNT as int);
        }
        c
    }

    /// Every capability.
    pub fn all() -> (c: Capabilities)
        ensures
            forall|k: int| 1 <= k <= CAPABILITY_COUNT ==> c.flag(k),
            c.spec_len() == CAPABILITY_COUNT,
    {
        let c = Capabilities {
            list_keys: true,
            write_keys: true,
            delete_keys: true,
            list_buckets: true,
            write_buckets: true,
            delete_buckets: true,
            list_files: true,
            read_files: true,
            share_files: true,
            write_files: true,
            delete_files: true,
        };
        proof {
            c.lemma_count_to(CAPABILITY_COUNT as int);
        }
        c
    }

    /// The number of capabilities that are set.
    pub fn len(&self) -> (n: usize)
        ensures
            n == self.spec_len(),
    {
        let mut n: usize = 0;
        let mut k: u8 = 0;
        while k < CAPABILITY_COUNT
            invariant
                k <= CAPABILITY_COUNT,
                n == self.count_to(k as int),
                n <= k,
            decreases CAPABILITY_COUNT - k,
        {
            k += 1;
            if self.get(k) {
                n += 1;
            }
        }
        n
    }

    /// Whether no capability is set.
    pub fn is_empty(&self) -> (r: bool)
        ensures
            r == (self.spec_len() == 0),
            r == forall|k: int| 1 <= k <= CAPABILITY_COUNT ==> !self.flag(k),
    {
        proof {
            self.lemma_count_to(CAPABILITY_COUNT as int);
        }
        self.len() == 0
    }

    /// Whether the capability with the number `k` is set.
    pub fn get(&self, k: u8) -> (r: bool)
        ensures
            r == self.flag(k as int),
    {
        if k == 1 {
            self.list_keys
        } else if k == 2 {
            self.write_keys
        } else if k == 3 {
            self.delete_keys
        } else if k == 4 {
            self.list_buckets
        } else if k == 5 {
            self.write_buckets
        } else if k == 6 {
            self.delete_buckets
        } else if k == 7 {
            self.list_files
        } else if k == 8 {
            self.read_files
        } else if k == 9 {
            self.share_files
        } else if k == 10 {
            self.write_files
        } else if k == 11 {
            self.delete_files
        } else {
            false
        }
    }

    /// Sets the capability that the service calls `name`. An unknown name changes
    /// nothing; the result says whether the name is known.
    pub fn set_by_name(&mut self, name: &str) -> (known: bool)
        ensures
            known == exists|k: int| 1 <= k <= CAPABILITY_COUNT && name@ == spec_name(k),
            forall|k: int|
                1 <= k <= CAPABILITY_COUNT ==> final(self).flag(k) == (old(self).flag(k) || name@
                    == spec_name(k)),
    {
        proof {
            lemma_names_differ();
        }
        if same_text(name, "listKeys") {
            self.list_keys = true;
            assert(name@ == spec_name(1));
            true
        } else if same_text(name, "writeKeys") {
            self.write_keys = true;
            assert(name@ == spec_name(2));
            true
        } else if same_text(name, "deleteKeys") {
            self.delete_keys = true;
            assert(name@ == spec_name(3));
            true
        } else if same_text(name, "listBuckets") {
            self.list_buckets = true;
            assert(name@ == spec_name(4));
            true
        } else if same_text(name, "writeBuckets") {
            self.write_buckets = true;
            assert(name@ == spec_name(5));
            true
        } else if same_text(name, "deleteBuckets") {
            self.delete_buckets = true;
            assert(name@ == spec_name(6));
            true
        } else if same_text(name, "listFiles") {
            self.list_files = true;
            assert(name@ == spec_name(7));
            true
        } else if same_text(name, "readFiles") {
            self.read_files = true;
            assert(name@ == spec_name(8));
            true
        } else if same_text(name, "shareFiles") {
            self.share_files = true;
            assert(name@ == spec_name(9));
            true
        } else if same_text(name, "writeFiles") {
            self.write_files = true;
            assert(name@ == spec_name(10));
            true
        } else if same_text(name, "deleteFiles") {
            self.delete_files = true;
            assert(name@ == spec_name(11));
            true
        } else {
            false
        }
    }

    /// Goes through the names of the capabilities that are set.
    pub fn iter(&self) -> (it: CapabilitiesIter)
        ensures
            it.capabilities() == *self,
            it.position() == 0,
    {
        CapabilitiesIter { c: *self, i: 0 }
    }

    /// The names of the capabilities that are set, as the service lists them.
    pub fn names(&self) -> (names: Vec<&'static str>)
        ensures
            names@.len() == self.spec_names().len(),
            forall|j: int| 0 <= j < names@.len() ==> (#[trigger] names@[j])@ == self.spec_names()[j],
    {
        let mut names: Vec<&'static str> = Vec::new();
        let mut k: u8 = CAPABILITY_COUNT;
        let ghost mut tail: Seq<Seq<char>> = Seq::empty();
        // The list is built from its end, so that each step puts one name in front.
        let mut rev: Vec<&'static str> = Vec::new();
        while k > 0
            invariant
                k <= CAPABILITY_COUNT,
                tail == self.names_after(k as int),
                rev@.len() == tail.len(),
                forall|j: int|
                    0 <= j < rev@.len() ==> (#[trigger] rev@[j])@ == tail[tail.len() - 1 - j],
            decreases k,
        {
            if self.get(k) {
                rev.push(name_of(k));
                proof {
                    tail = seq![spec_name(k as int)] + tail;
                }
            }
            k -= 1;
        }
        let mut j: usize = rev.len();
        while j > 0
            invariant
                j <= rev@.len(),
                rev@.len() == tail.len(),
                tail == self.spec_names(),
                names@.len() == rev@.len() - j,
                forall|m: int|
                    0 <= m < rev@.len() ==> (#[trigger] rev@[m])@ == tail[tail.len() - 1 - m],
                forall|m: int| 0 <= m < names@.len() ==> (#[trigger] names@[m])@ == tail[m],
            decreases j,
        {
            j -= 1;
            names.push(rev[j]);
        }
        names
    }
}

impl CapabilitiesIter {
    /// The capabilities that the iterator goes through.
    pub closed spec fn capabilities(&self) -> Capabilities {
        self.c
    }

    /// The number of the capability that the iterator looked at last, zero at the
    /// start.
    pub closed spec fn position(&self) -> int {
        self.i as int
    }

    /// The name of the next capability that is set, in the order of the numbers.
    pub fn next(&mut self) -> (name: Option<&'static str>)
        ensures
            final(self).capabilities() == old(self).capabilities(),
            match name {
                Some(name) => {
                    let k = final(self).position();
                    &&& old(self).position() < k <= CAPABILITY_COUNT
                    &&& name@ == spec_name(k)
                    &&& old(self).capabilities().flag(k)
                    &&& forall|j: int|
                        old(self).position() < j < k ==> !old(self).capabilities().flag(j)
                },
                None => {
                    &&& final(self).position() >= CAPABILITY_COUNT
                    &&& final(self).position() >= old(self).position()
                    &&& forall|j: int|
                        old(self).position() < j ==> !old(self).capabilities().flag(j)
                },
            },
    {
        while self.i < CAPABILITY_COUNT
            invariant
                self.c == old(self).c,
                old(self).i <= self.i,
                forall|j: int| old(self).i < j <= self.i ==> !self.c.flag(j),
            decreases CAPABILITY_COUNT - self.i,
        {
            self.i += 1;
            if self.c.get(self.i) {
                return Some(name_of(self.i));
            }
        }
        None
    }
}

} // verus!
