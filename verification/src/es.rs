//! What the replies of the search index mean for the library.
use vstd::prelude::*;

verus! {

/// Why the search index could not serve a request.
pub enum IndexError {
    InvalidUrl,
    NotFound,
    CreationFailed,
    Inner(rs_es::error::EsError),
}

/// Trusted: declares `rs_es::error::EsError`, the error of the search-index
/// client, so that it can be passed on; nothing inside it is read.
#[verifier::external_type_specification]
#[verifier::external_body]
pub struct ExClientError(rs_es::error::EsError);

/// The outcome of indexing a document, from the `created` flag of the
/// index's reply or the client's error: a document that was not created is
/// a failure.
pub fn index_outcome(reply: Result<bool, rs_es::error::EsError>) -> (r: Result<(), IndexError>)
    ensures
        match reply {
            Ok(true) => r is Ok,
            Ok(false) => r matches Err(IndexError::CreationFailed),
            Err(e) => r == Err::<(), IndexError>(IndexError::Inner(e)),
        },
{
    match reply {
        Ok(created) => {
            if created {
                Ok(())
            } else {
                Err(IndexError::CreationFailed)
            }
        },
        Err(inner) => Err(IndexError::Inner(inner)),
    }
}

/// The outcome of deleting a document, from the `found` flag of the
/// index's reply or the client's error: a document that was not there is
/// not found.
pub fn delete_outcome(reply: Result<bool, rs_es::error::EsError>) -> (r: Result<(), IndexError>)
    ensures
        match reply {
            Ok(true) => r is Ok,
            Ok(false) => r matches Err(IndexError::NotFound),
            Err(e) => r == Err::<(), IndexError>(IndexError::Inner(e)),
        },
{
    match reply {
        Ok(found) => {
            if found {
                Ok(())
            } else {
                Err(IndexError::NotFound)
            }
        },
        Err(inner) => Err(IndexError::Inner(inner)),
    }
}

/// The document of a get request, from the source in the index's reply:
/// without a source, or on any error of the client, it is not found.
pub fn get_outcome<T>(reply: Result<Option<T>, rs_es::error::EsError>) -> (r: Result<T, IndexError>)
    ensures
        match reply {
            Ok(Some(doc)) => r == Ok::<T, IndexError>(doc),
            _ => r matches Err(IndexError::NotFound),
        },
{
    match reply {
        Ok(Some(doc)) => Ok(doc),
        _ => Err(IndexError::NotFound),
    }
}

/// The documents among the hits of a search: the hits that carry a source,
/// in their order.
pub fn search_documents<T>(hits: Vec<Option<T>>) -> (r: Vec<T>)
    ensures
        r@ == hits@.filter(|h: Option<T>| h is Some).map_values(|h: Option<T>| h->0),
{
    let ghost all = hits@;
    let ghost pred = |h: Option<T>| h is Some;
    let ghost get = |h: Option<T>| h->0;
    let mut docs: Vec<T> = Vec::new();
    let mut rest = hits;
    let n = rest.len();
    let mut i: usize = 0;
    while i < n
        invariant
            n == all.len(),
            i <= n,
            rest@.len() == n - i,
            forall|j: int| 0 <= j < n - i ==> #[trigger] rest@[j] == all[i + j],
            pred == (|h: Option<T>| h is Some),
            get == (|h: Option<T>| h->0),
            docs@ == all.take(i as int).filter(pred).map_values(get),
        decreases n - i,
    {
        let ghost old_rest = rest@;
        let h = rest.remove(0);
        assert(h == old_rest[0] && old_rest[0] == all[i + 0]);
        reveal_with_fuel(Seq::filter, 1);
        assert(all.take(i + 1).drop_last() =~= all.take(i as int));
        let ghost before = docs@;
        match h {
            Some(doc) => {
                docs.push(doc);
                assert(all.take(i + 1).filter(pred) == all.take(i as int).filter(pred).push(all[i as int]));
                assert(docs@ =~= all.take(i + 1).filter(pred).map_values(get));
            },
            None => {
                assert(all.take(i + 1).filter(pred) == all.take(i as int).filter(pred));
            },
        }
        i = i + 1;
    }
    assert(all.take(n as int) =~= all);
    docs
}

} // verus!
