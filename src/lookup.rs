use vstd::prelude::*;
use crate::model::{copy_strings, strings_view, DnsError, ErrorView, ListResponse, RecordInfo};

verus! {

/// The id of the first entry whose name is exactly `name`, if any.
pub open spec fn find_id(rs: Seq<RecordInfo>, name: Seq<char>) -> Option<Seq<char>>
    decreases rs.len(),
{
    if rs.len() == 0 {
        None
    } else if rs[0].name@ == name {
        Some(rs[0].id@)
    } else {
        find_id(rs.drop_first(), name)
    }
}

/// What a record list says of the record named `name`: its id, the provider's
/// errors when the list reports a failure, or that it is not there.
pub open spec fn lookup_view(resp: ListResponse, name: Seq<char>) -> Result<Seq<char>, ErrorView> {
    if !resp.success {
        Err(ErrorView::Provider(strings_view(resp.errors@)))
    } else {
        match find_id(resp.result@, name) {
            Some(id) => Ok(id),
            None => Err(ErrorView::NotFound(name)),
        }
    }
}

/// The id of the first record in `records` named exactly `name`.
pub fn find_record_id(records: &Vec<RecordInfo>, name: &String) -> (r: Option<String>)
    ensures
        match r {
            Some(id) => find_id(records@, name@) == Some(id@),
            None => find_id(records@, name@) is None,
        },
{
    let mut i: usize = 0;
    assert(records@.skip(0) =~= records@);
    while i < records.len()
        invariant
            i <= records.len(),
            find_id(records@, name@) == find_id(records@.skip(i as int), name@),
        decreases records.len() - i,
    {
        let ghost rest = records@.skip(i as int);
        assert(rest[0] == records@[i as int]);
        if records[i].name == *name {
            return Some(records[i].id.clone());
        }
        assert(rest.drop_first() =~= records@.skip(i as int + 1));
        i = i + 1;
    }
    assert(records@.skip(i as int) =~= Seq::<RecordInfo>::empty());
    None
}

/// The provider id of the record named `name`, read from a zone's record list.
/// A list that reports failure gives the provider's errors; a list without the
/// name gives `NotFound`.
pub fn record_id_from_response(resp: &ListResponse, name: &String) -> (r: Result<String, DnsError>)
    ensures
        match r {
            Ok(id) => lookup_view(*resp, name@) == Ok::<Seq<char>, ErrorView>(id@),
            Err(e) => lookup_view(*resp, name@) == Err::<Seq<char>, ErrorView>(e@),
        },
{
    if !resp.success {
        return Err(DnsError::Provider(copy_strings(&resp.errors)));
    }
    match find_record_id(&resp.result, name) {
        Some(id) => Ok(id),
        None => Err(DnsError::NotFound(name.clone())),
    }
}

} // verus!
