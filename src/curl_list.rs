//! The header list that curl sends with a request.

use vstd::prelude::*;
use crate::headers::no_nul;

verus! {

#[verifier::external_type_specification]
#[verifier::external_body]
pub struct ExList(curl::easy::List);

#[verifier::external_type_specification]
#[verifier::external_body]
pub struct ExCurlError(curl::Error);

/// The lines that a curl header list holds, in order.
pub uninterp spec fn list_lines(l: curl::easy::List) -> Seq<Seq<char>>;

/// Relies on curl::easy::List::new: a new list holds no lines.
#[verifier::external_body]
pub(crate) fn empty_list() -> (r: curl::easy::List)
    ensures
        list_lines(r) == Seq::<Seq<char>>::empty(),
{
    curl::easy::List::new()
}

/// Relies on curl::easy::List::append: the line is copied through a C
/// string to the end of the list; when the line holds a NUL, making the C
/// string fails first and the list is left as it was.
pub assume_specification[ curl::easy::List::append ](
    l: &mut curl::easy::List,
    data: &str,
) -> (r: Result<(), curl::Error>)
    ensures
        r is Ok <==> no_nul(data@),
        r is Ok ==> list_lines(*final(l)) == list_lines(*old(l)).push(data@),
        r is Err ==> list_lines(*final(l)) == list_lines(*old(l)),
;

} // verus!
