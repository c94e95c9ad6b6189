//! Validation of required capability names (layers, extensions) against the
//! names an instance or device reports as available.
//!
//! Names are opaque byte strings compared by exact equality. A required set
//! is satisfied exactly when every required name occurs among the available
//! ones; the first missing name (in enumeration order) is reported otherwise.

use vstd::prelude::*;

verus! {

/// A required capability name occurs in the available set.
pub open spec fn name_in(avail: Seq<Seq<u8>>, name: Seq<u8>) -> bool {
    exists|j: int| 0 <= j < avail.len() && avail[j] == name
}

/// Every required name occurs in the available set.
pub open spec fn all_present(req: Seq<Seq<u8>>, avail: Seq<Seq<u8>>) -> bool {
    forall|i: int| 0 <= i < req.len() ==> name_in(avail, #[trigger] req[i])
}

/// A required capability that was not found among the available ones:
/// the name itself and its position in the required list.
#[derive(Clone, Debug)]
pub struct MissingCapability {
    pub name: Vec<u8>,
    pub index: usize,
}

/// The deep view of a list of names indexes to the view of each name.
pub proof fn lemma_names_view(v: &Vec<Vec<u8>>)
    ensures
        v.deep_view().len() == v@.len(),
        forall|i: int| 0 <= i < v@.len() ==> #[trigger] v.deep_view()[i] == v@[i]@,
{
    assert forall|i: int| 0 <= i < v@.len() implies #[trigger] v.deep_view()[i] == v@[i]@ by {
        assert(v@[i].deep_view() =~= v@[i]@);
    }
}

/// Compares two byte strings for exact equality.
pub fn bytes_eq(a: &Vec<u8>, b: &Vec<u8>) -> (r: bool)
    ensures
        r == (a@ == b@),
{
    if a.len() != b.len() {
        assert(a@ != b@) by {
            assert(a@.len() != b@.len());
        }
        return false;
    }
    let n = a.len();
    let mut i: usize = 0;
    while i < n
        invariant
            0 <= i <= n,
            n == a@.len() == b@.len(),
            forall|k: int| 0 <= k < i ==> a@[k] == b@[k],
        decreases n - i,
    {
        if a[i] != b[i] {
            assert(a@ != b@) by {
                assert(a@[i as int] != b@[i as int]);
            }
            return false;
        }
        i = i + 1;
    }
    assert(a@ =~= b@);
    true
}

/// Whether `name` occurs in `avail`, by exact byte equality.
pub fn contains_name(avail: &Vec<Vec<u8>>, name: &Vec<u8>) -> (r: bool)
    ensures
        r == name_in(avail.deep_view(), name@),
{
    let n = avail.len();
    let mut j: usize = 0;
    while j < n
        invariant
            0 <= j <= n,
            n == avail@.len(),
            forall|k: int| 0 <= k < j ==> avail.deep_view()[k] != name@,
        decreases n - j,
    {
        proof {
            lemma_names_view(avail);
        }
        if bytes_eq(&avail[j], name) {
            assert(avail.deep_view()[j as int] == name@);
            return true;
        }
        assert(avail.deep_view()[j as int] != name@);
        j = j + 1;
    }
    proof {
        lemma_names_view(avail);
    }
    false
}

/// Whether every name in `req` occurs in `avail`.
pub fn contains_all(req: &Vec<Vec<u8>>, avail: &Vec<Vec<u8>>) -> (r: bool)
    ensures
        r == all_present(req.deep_view(), avail.deep_view()),
{
    let n = req.len();
    let mut i: usize = 0;
    while i < n
        invariant
            0 <= i <= n,
            n == req@.len(),
            forall|k: int| 0 <= k < i ==> name_in(avail.deep_view(), #[trigger] req.deep_view()[k]),
        decreases n - i,
    {
        proof {
            lemma_names_view(req);
        }
        if !contains_name(avail, &req[i]) {
            assert(!name_in(avail.deep_view(), req.deep_view()[i as int]));
            return false;
        }
        assert(name_in(avail.deep_view(), req.deep_view()[i as int]));
        i = i + 1;
    }
    proof {
        lemma_names_view(req);
    }
    true
}

/// Checks that every required capability name is available.
///
/// Succeeds exactly when the required set is a subset of the available set;
/// otherwise reports the first required name, in enumeration order, that is
/// not available. Any missing required capability is fatal to bootstrap, so
/// there is no partial success.
pub fn validate(required: &Vec<Vec<u8>>, available: &Vec<Vec<u8>>) -> (r: Result<
    (),
    MissingCapability,
>)
    ensures
        r is Ok <==> all_present(required.deep_view(), available.deep_view()),
        r matches Err(m) ==> {
            &&& m.index < required@.len()
            &&& m.name@ == required.deep_view()[m.index as int]
            &&& !name_in(available.deep_view(), required.deep_view()[m.index as int])
            &&& forall|k: int|
                0 <= k < m.index ==> name_in(
                    available.deep_view(),
                    #[trigger] required.deep_view()[k],
                )
        },
{
    let n = required.len();
    let mut i: usize = 0;
    while i < n
        invariant
            0 <= i <= n,
            n == required@.len(),
            forall|k: int|
                0 <= k < i ==> name_in(available.deep_view(), #[trigger] required.deep_view()[k]),
        decreases n - i,
    {
        proof {
            lemma_names_view(required);
        }
        if !contains_name(available, &required[i]) {
            let mut name: Vec<u8> = Vec::new();
            let m = required[i].len();
            let mut b: usize = 0;
            while b < m
                invariant
                    0 <= b <= m,
                    i < required@.len(),
                    m == required@[i as int]@.len(),
                    name@ == required@[i as int]@.take(b as int),
                decreases m - b,
            {
                name.push(required[i][b]);
                assert(name@ =~= required@[i as int]@.take(b + 1));
                b = b + 1;
            }
            assert(name@ =~= required@[i as int]@);
            assert(!name_in(available.deep_view(), required.deep_view()[i as int]));
            assert(!all_present(required.deep_view(), available.deep_view()));
            return Err(MissingCapability { name, index: i });
        }
        assert(name_in(available.deep_view(), required.deep_view()[i as int]));
        i = i + 1;
    }
    proof {
        lemma_names_view(required);
    }
    Ok(())
}

} // verus!
