//! How the judge's replies are read: the problems of a problem set, the
//! accepted submission of a problem, the source text of a submission.

use crate::error::HarvestError;
use crate::json::{parse, parsed_json, Json};
use vstd::prelude::*;

verus! {

/// What one GET brought back.
#[derive(Clone, Debug, PartialEq, Eq)]
pub enum Reply {
    /// The body text of the response.
    Body(String),
    /// The transport failed: no connection, a timeout, a body that is not text.
    Lost,
}

impl View for Reply {
    type V = Option<Seq<char>>;

    open spec fn view(&self) -> Option<Seq<char>> {
        match self {
            Reply::Body(text) => Some(text@),
            Reply::Lost => None,
        }
    }
}

/// Where a problem-set document keeps its problems.
pub open spec fn problems_path() -> Seq<Seq<char>> {
    seq!["currentData"@, "training"@, "problems"@]
}

/// Where an entry of the problem array keeps the problem's identifier.
pub open spec fn pid_path() -> Seq<Seq<char>> {
    seq!["problem"@, "pid"@]
}

/// Where a record-list document keeps its records.
pub open spec fn records_path() -> Seq<Seq<char>> {
    seq!["currentData"@, "records"@, "result"@]
}

/// Where a record document keeps the submitted source text.
pub open spec fn source_path() -> Seq<Seq<char>> {
    seq!["currentData"@, "record"@, "sourceCode"@]
}

/// The identifier of one entry of the problem array, if it has one that is a string.
pub open spec fn pid_of(entry: Json) -> Option<Seq<char>> {
    match entry.descend(pid_path()) {
        Some(Json::Text(pid)) => Some(pid@),
        _ => None,
    }
}

/// The entries of the problem array of a problem-set document; `None`
/// where the field is missing or holds something other than an array.
pub open spec fn problem_array_of(document: Json) -> Option<Seq<Json>> {
    match document.descend(problems_path()) {
        Some(Json::Array { items, .. }) => Some(items@),
        _ => None,
    }
}

/// The problem identifiers of a problem-set document, in the document's
/// order: entries without a string identifier are passed over, and a
/// document without a problem array has none.
pub open spec fn problem_list_of(document: Json) -> Seq<Seq<char>> {
    match problem_array_of(document) {
        Some(entries) => entries.filter_map(|entry: Json| pid_of(entry)),
        None => Seq::empty(),
    }
}

/// The submission that an `id` value names. Null names none. A string
/// names one by its content, and any other value by its compact JSON text.
pub open spec fn reference_of(id: Json) -> Option<Seq<char>> {
    match id {
        Json::Null => None,
        Json::Text(text) => Some(text@),
        Json::Number(digits) => Some(digits@),
        Json::Bool(true) => Some("true"@),
        Json::Bool(false) => Some("false"@),
        Json::Array { text, .. } => Some(text@),
        Json::Object { text, .. } => Some(text@),
    }
}

/// The `id` of the first record of a record-list document, if there is one.
pub open spec fn first_record_id(document: Json) -> Option<Json> {
    match document.descend(records_path()) {
        Some(records) => match records.element(0) {
            Some(first) => first.member("id"@),
            None => None,
        },
        None => None,
    }
}

/// The most recent accepted submission that a record-list document names.
pub open spec fn submission_of(document: Json) -> Option<Seq<char>> {
    match first_record_id(document) {
        Some(id) => reference_of(id),
        None => None,
    }
}

/// The source text of a record document, if it holds one as a string.
pub open spec fn source_code_of(document: Json) -> Option<Seq<char>> {
    match document.descend(source_path()) {
        Some(Json::Text(code)) => Some(code@),
        _ => None,
    }
}

/// The problem identifiers listed in a problem-set document.
pub fn problem_ids(document: &Json) -> (ids: Vec<String>)
    ensures
        ids.deep_view() == problem_list_of(*document),
        problem_array_of(*document) is None ==> ids@.len() == 0,
{
    let path = ["currentData", "training", "problems"];
    assert(path.deep_view() =~= problems_path());
    let mut ids: Vec<String> = Vec::new();
    match document.find(&path) {
        Some(Json::Array { items: entries, .. }) => {
            let ghost pick = |entry: Json| pid_of(entry);
            let mut i: usize = 0;
            assert(entries@.take(0).filter_map(pick) =~= Seq::empty());
            while i < entries.len()
                invariant
                    i <= entries.len(),
                    pick == |entry: Json| pid_of(entry),
                    ids.deep_view() == entries@.take(i as int).filter_map(pick),
                decreases entries.len() - i,
            {
                let inner = ["problem", "pid"];
                assert(inner.deep_view() =~= pid_path());
                proof {
                    entries@.lemma_filter_map_take_succ(pick, i as int);
                }
                let ghost before = ids.deep_view();
                match entries[i].find(&inner) {
                    Some(Json::Text(pid)) => {
                        ids.push(pid.clone());
                        assert(ids.deep_view() =~= before + seq![pid@]);
                    },
                    _ => {
                        assert(pid_of(entries@[i as int]) is None);
                    },
                }
                i += 1;
            }
            assert(entries@.take(i as int) =~= entries@);
        },
        _ => {
            assert(ids.deep_view() =~= Seq::empty());
        },
    }
    ids
}

/// The most recent accepted submission named in a record-list document:
/// the `id` of its first record, unless that is missing or null.
pub fn accepted_submission(document: &Json) -> (submission: Option<String>)
    ensures
        match submission {
            Some(id) => submission_of(*document) == Some(id@),
            None => submission_of(*document) is None,
        },
        submission is Some <==> first_record_id(*document) is Some && !(first_record_id(
            *document,
        )->Some_0 is Null),
{
    let path = ["currentData", "records", "result"];
    assert(path.deep_view() =~= records_path());
    let records = match document.find(&path) {
        Some(records) => records,
        None => {
            return None;
        },
    };
    let first = match records.at(0) {
        Some(first) => first,
        None => {
            return None;
        },
    };
    match first.get("id") {
        Some(Json::Text(text)) => Some(text.clone()),
        Some(Json::Number(digits)) => Some(digits.clone()),
        Some(Json::Bool(true)) => Some("true".to_owned()),
        Some(Json::Bool(false)) => Some("false".to_owned()),
        Some(Json::Array { text, .. }) => Some(text.clone()),
        Some(Json::Object { text, .. }) => Some(text.clone()),
        Some(Json::Null) => None,
        None => None,
    }
}

/// The source text held in a record document.
pub fn source_code(document: &Json) -> (code: Result<String, HarvestError>)
    ensures
        match code {
            Ok(text) => source_code_of(*document) == Some(text@),
            Err(error) => source_code_of(*document) is None && error == HarvestError::MissingCode,
        },
{
    let path = ["currentData", "record", "sourceCode"];
    assert(path.deep_view() =~= source_path());
    match document.find(&path) {
        Some(Json::Text(code)) => Ok(code.clone()),
        _ => Err(HarvestError::MissingCode),
    }
}

/// How a reply to the problem-set request reads: a lost reply is a network
/// failure, a body that is not JSON is malformed, any other body yields the
/// identifiers listed in it.
pub open spec fn problem_list_in(reply: Option<Seq<char>>) -> Result<Seq<Seq<char>>, HarvestError> {
    match reply {
        None => Err(HarvestError::Network),
        Some(body) => match parsed_json(body) {
            None => Err(HarvestError::MalformedResponse),
            Some(document) => Ok(problem_list_of(document)),
        },
    }
}

/// How a reply to the record-list request reads.
pub open spec fn submission_in(reply: Option<Seq<char>>) -> Result<
    Option<Seq<char>>,
    HarvestError,
> {
    match reply {
        None => Err(HarvestError::Network),
        Some(body) => match parsed_json(body) {
            None => Err(HarvestError::MalformedResponse),
            Some(document) => Ok(submission_of(document)),
        },
    }
}

/// How a reply to the record request reads.
pub open spec fn source_code_in(reply: Option<Seq<char>>) -> Result<Seq<char>, HarvestError> {
    match reply {
        None => Err(HarvestError::Network),
        Some(body) => match parsed_json(body) {
            None => Err(HarvestError::MalformedResponse),
            Some(document) => match source_code_of(document) {
                Some(code) => Ok(code),
                None => Err(HarvestError::MissingCode),
            },
        },
    }
}

/// A document without a problem array, because the field is missing or
/// holds something else, lists no problem; and a reply that holds such a
/// document reads as the empty list, not as a failure.
pub proof fn law_missing_problems_is_empty(document: Json, body: Seq<char>)
    requires
        problem_array_of(document) is None,
    ensures
        problem_list_of(document) == Seq::<Seq<char>>::empty(),
        parsed_json(body) == Some(document) ==> problem_list_in(Some(body)) == Ok::<
            Seq<Seq<char>>,
            HarvestError,
        >(Seq::empty()),
{
}

/// A record list names a submission exactly where its first record has an
/// `id` that is not null; a missing record list, an empty one, a first
/// record without `id` and a null `id` all name none.
pub proof fn law_submission_is_the_first_id(document: Json)
    ensures
        submission_of(document) is Some <==> first_record_id(document) is Some && !(
        first_record_id(document)->Some_0 is Null),
        first_record_id(document) is Some ==> submission_of(document) == reference_of(
            first_record_id(document)->Some_0,
        ),
        forall|id: Json| reference_of(id) is None <==> id is Null,
{
}

/// A body that is not JSON is malformed, whatever was asked for; a body
/// that is JSON lists problems and names a submission or none, without
/// failure, and fails as a record only for want of source text.
pub proof fn law_json_decides_malformed(body: Seq<char>)
    ensures
        parsed_json(body) is None ==> {
            &&& problem_list_in(Some(body)) == Err::<Seq<Seq<char>>, _>(
                HarvestError::MalformedResponse,
            )
            &&& submission_in(Some(body)) == Err::<Option<Seq<char>>, _>(
                HarvestError::MalformedResponse,
            )
            &&& source_code_in(Some(body)) == Err::<Seq<char>, _>(HarvestError::MalformedResponse)
        },
        parsed_json(body) is Some ==> {
            &&& problem_list_in(Some(body)) is Ok
            &&& submission_in(Some(body)) is Ok
            &&& source_code_in(Some(body)) is Ok || source_code_in(Some(body)) == Err::<
                Seq<char>,
                _,
            >(HarvestError::MissingCode)
        },
{
}

/// A list of names, or a failure, as plain text.
pub open spec fn names_view(found: Result<Vec<String>, HarvestError>) -> Result<
    Seq<Seq<char>>,
    HarvestError,
> {
    match found {
        Ok(names) => Ok(names.deep_view()),
        Err(error) => Err(error),
    }
}

/// A submission, none, or a failure, as plain text.
pub open spec fn submission_view(found: Result<Option<String>, HarvestError>) -> Result<
    Option<Seq<char>>,
    HarvestError,
> {
    match found {
        Ok(Some(id)) => Ok(Some(id@)),
        Ok(None) => Ok(None),
        Err(error) => Err(error),
    }
}

/// A text, or a failure, as plain text.
pub open spec fn text_view(found: Result<String, HarvestError>) -> Result<Seq<char>, HarvestError> {
    match found {
        Ok(text) => Ok(text@),
        Err(error) => Err(error),
    }
}

/// Reads the reply to the problem-set request.
pub fn get_problem_list(reply: &Reply) -> (list: Result<Vec<String>, HarvestError>)
    ensures
        names_view(list) == problem_list_in(reply@),
{
    match reply {
        Reply::Lost => Err(HarvestError::Network),
        Reply::Body(body) => match parse(body.as_str()) {
            None => Err(HarvestError::MalformedResponse),
            Some(document) => Ok(problem_ids(&document)),
        },
    }
}

/// Reads the reply to the record-list request.
pub fn get_problem_status(reply: &Reply) -> (status: Result<Option<String>, HarvestError>)
    ensures
        submission_view(status) == submission_in(reply@),
{
    match reply {
        Reply::Lost => Err(HarvestError::Network),
        Reply::Body(body) => match parse(body.as_str()) {
            None => Err(HarvestError::MalformedResponse),
            Some(document) => Ok(accepted_submission(&document)),
        },
    }
}

/// Reads the reply to the record request.
pub fn get_code_by_rid(reply: &Reply) -> (code: Result<String, HarvestError>)
    ensures
        text_view(code) == source_code_in(reply@),
{
    match reply {
        Reply::Lost => Err(HarvestError::Network),
        Reply::Body(body) => match parse(body.as_str()) {
            None => Err(HarvestError::MalformedResponse),
            Some(document) => source_code(&document),
        },
    }
}

} // verus!
