//! Domain names as sequences of labels, compared as DNS compares them:
//! ASCII letters without regard to case, every other byte exactly.
//!
//! The two comparisons are those of `hickory_proto::rr::Name`: its `==`
//! (same number of labels, each label equal once ASCII-lowercased) and its
//! `zone_of` (the zone's labels are the last labels of the name, compared
//! the same way). Each is a few lines of specification, so they are written
//! here and proved against it.

use vstd::prelude::*;

verus! {

/// A domain name: its labels from the leftmost (most specific) to the
/// rightmost, without the root.
pub struct DomainName {
    pub labels: Vec<Vec<u8>>,
}

impl View for DomainName {
    type V = Seq<Seq<u8>>;

    open spec fn view(&self) -> Seq<Seq<u8>> {
        self.labels@.map_values(|l: Vec<u8>| l@)
    }
}

/// `u8::to_ascii_lowercase`.
pub open spec fn ascii_lower(b: u8) -> u8 {
    if 65 <= b <= 90 {
        (b + 32) as u8
    } else {
        b
    }
}

pub open spec fn labels_match(a: Seq<u8>, b: Seq<u8>) -> bool {
    &&& a.len() == b.len()
    &&& forall|i: int| 0 <= i < a.len() ==> ascii_lower(#[trigger] a[i]) == ascii_lower(b[i])
}

/// Whether two names are the same name.
pub open spec fn same_name(a: Seq<Seq<u8>>, b: Seq<Seq<u8>>) -> bool {
    &&& a.len() == b.len()
    &&& forall|i: int| 0 <= i < a.len() ==> labels_match(#[trigger] a[i], b[i])
}

/// Whether `name` lies in `zone`: the labels of `zone` are the last labels
/// of `name`. The root zone (no labels) holds every name.
pub open spec fn in_zone(zone: Seq<Seq<u8>>, name: Seq<Seq<u8>>) -> bool {
    &&& zone.len() <= name.len()
    &&& forall|i: int|
        0 <= i < zone.len() ==> labels_match(#[trigger] zone[i], name[name.len() - zone.len() + i])
}

pub fn ascii_lowercase(b: u8) -> (r: u8)
    ensures
        r == ascii_lower(b),
{
    if 65 <= b && b <= 90 {
        b + 32
    } else {
        b
    }
}

fn label_eq(a: &Vec<u8>, b: &Vec<u8>) -> (r: bool)
    ensures
        r == labels_match(a@, b@),
{
    if a.len() != b.len() {
        return false;
    }
    let mut i: usize = 0;
    while i < a.len()
        invariant
            a.len() == b.len(),
            i <= a.len(),
            forall|j: int| 0 <= j < i ==> ascii_lower(#[trigger] a@[j]) == ascii_lower(b@[j]),
        decreases a.len() - i,
    {
        if ascii_lowercase(a[i]) != ascii_lowercase(b[i]) {
            return false;
        }
        i = i + 1;
    }
    true
}

impl DomainName {
    /// A copy of the name, label by label.
    pub fn copy(&self) -> (c: DomainName)
        ensures
            c@ == self@,
    {
        let mut labels: Vec<Vec<u8>> = Vec::new();
        let mut i: usize = 0;
        while i < self.labels.len()
            invariant
                i <= self.labels.len(),
                labels.len() == i,
                forall|j: int| 0 <= j < i ==> (#[trigger] labels@[j])@ == self.labels@[j]@,
            decreases self.labels.len() - i,
        {
            let l = self.labels[i].clone();
            assert(l@ =~= self.labels@[i as int]@);
            labels.push(l);
            i = i + 1;
        }
        let c = DomainName { labels };
        assert(c@ =~= self@);
        c
    }

    /// Whether `self` and `other` are the same name, as `Name`'s `==` says.
    pub fn same_as(&self, other: &DomainName) -> (r: bool)
        ensures
            r == same_name(self@, other@),
    {
        if self.labels.len() != other.labels.len() {
            return false;
        }
        let mut i: usize = 0;
        while i < self.labels.len()
            invariant
                self.labels.len() == other.labels.len(),
                i <= self.labels.len(),
                forall|j: int| 0 <= j < i ==> labels_match(#[trigger] self@[j], other@[j]),
            decreases self.labels.len() - i,
        {
            assert(self@[i as int] == self.labels@[i as int]@);
            assert(other@[i as int] == other.labels@[i as int]@);
            if !label_eq(&self.labels[i], &other.labels[i]) {
                return false;
            }
            i = i + 1;
        }
        true
    }

    /// Whether `name` lies in the zone `self`, as `Name::zone_of` says.
    pub fn is_zone_of(&self, name: &DomainName) -> (r: bool)
        ensures
            r == in_zone(self@, name@),
    {
        let zl = self.labels.len();
        let nl = name.labels.len();
        if zl > nl {
            return false;
        }
        let offset = nl - zl;
        let mut i: usize = 0;
        while i < zl
            invariant
                zl == self.labels.len(),
                nl == name.labels.len(),
                zl <= nl,
                offset == nl - zl,
                i <= zl,
                forall|j: int|
                    0 <= j < i ==> labels_match(#[trigger] self@[j], name@[name@.len() - self@.len() + j]),
            decreases zl - i,
        {
            assert(self@[i as int] == self.labels@[i as int]@);
            assert(name@[(offset + i) as int] == name.labels@[(offset + i) as int]@);
            if !label_eq(&self.labels[i], &name.labels[offset + i]) {
                return false;
            }
            i = i + 1;
        }
        true
    }
}

/// Every name lies in the root zone, and every name lies in its own zone.
pub proof fn lemma_zone_of_root_and_self(name: Seq<Seq<u8>>)
    ensures
        in_zone(Seq::empty(), name),
        in_zone(name, name),
{
}

/// Comparing names is an equivalence: reflexive, symmetric and transitive.
pub proof fn lemma_same_name_is_equivalence(a: Seq<Seq<u8>>, b: Seq<Seq<u8>>, c: Seq<Seq<u8>>)
    ensures
        same_name(a, a),
        same_name(a, b) ==> same_name(b, a),
        same_name(a, b) && same_name(b, c) ==> same_name(a, c),
{
    if same_name(a, b) && same_name(b, c) {
        assert forall|i: int| 0 <= i < a.len() implies labels_match(#[trigger] a[i], c[i]) by {
            assert(labels_match(a[i], b[i]));
            assert(labels_match(b[i], c[i]));
        }
    }
    if same_name(a, b) {
        assert forall|i: int| 0 <= i < b.len() implies labels_match(#[trigger] b[i], a[i]) by {
            assert(labels_match(a[i], b[i]));
        }
    }
}

} // verus!
