//! The records of a context: adding, replacing, patching, reading, deleting and
//! listing them.
//!
//! A request is carried out in two halves. The first takes the request and the store
//! of the context that it names, where there is one, and either refuses the request
//! or says what to call the store with. The second takes what the store replied and
//! makes the response. `S` is whatever stands for a store.

use serde_json::Value;
use vstd::prelude::*;

use crate::api::{
    AddRecordRequest, AddRecordsRequest, AddRecordsResponse, DeleteRecordResponse,
    GetRecordResponse, ListRecordsResponse, StatusCode, UpdateRecordRequest, UpdateRecordResponse,
    UpsertRecordRequest, UpsertRecordResponse,
};
use crate::clock::Clock;
use crate::convert;
use crate::convert::{patch_from_dto, record_from_add_request, records_to_dto, records_with_ids};
use crate::error;
use crate::error::{AppError, AppErrorView};
use crate::ids;
use crate::ids::IdSource;
use crate::json;
use crate::json::parse_json;
use crate::model;
use crate::model::{ContextRecord, LifecycleQueryOptions, PatchView, RecordPatch};

pub use crate::convert::record_to_dto;

verus! {

/// Why a request that only names a context is refused, if it is.
pub open spec fn lookup_refusal(found: bool, name: Seq<char>) -> Option<AppErrorView> {
    if found {
        None
    } else {
        Some(error::context_missing(name))
    }
}

/// The store of the context `name`, or the answer that there is none.
fn require_store<S>(store: Option<S>, name: &String) -> (found: Result<S, AppError>)
    ensures
        match lookup_refusal(store is Some, name@) {
            Some(refusal) => found is Err && found->Err_0@ == refusal,
            None => found == Ok::<S, AppError>(store->0),
        },
        store is Some ==> found == Ok::<S, AppError>(store->0),
        store is None ==> (found matches Err(AppError::NotFound(message)) && message@
            == "Context '"@ + name@ + "' does not exist"@),
{
    match store {
        Some(store) => Ok(store),
        None => Err(AppError::context_missing(name)),
    }
}

// Adding records

/// Why a request to add `records` is refused, if it is.
pub open spec fn add_refusal(found: bool, name: Seq<char>, records: Seq<AddRecordRequest>) -> Option<
    AppErrorView,
> {
    if records.len() == 0 {
        Some(AppErrorView::InvalidRequest("records array must not be empty"@))
    } else {
        lookup_refusal(found, name)
    }
}

/// Records to write to `store`, and their identifiers.
#[derive(Debug, PartialEq)]
pub struct AddRecordsCall<S> {
    pub store: S,
    pub ids: Vec<String>,
    pub records: Vec<ContextRecord>,
}

impl<S> AddRecordsCall<S> {
    /// The call writes what `requests` ask for, one record for each and in their order.
    /// `drawn` is what was drawn for it: first the run of all the records, then an
    /// identifier for each.
    pub open spec fn writes(self, requests: Seq<AddRecordRequest>, drawn: Seq<Seq<char>>) -> bool {
        &&& drawn == seq![drawn[0]] + model::seq_view(self.ids@)
        &&& forall|i: int| 0 <= i < drawn.len() ==> ids::is_uuid_v4(#[trigger] drawn[i])
        &&& convert::is_batch(self.records@, requests, drawn[0], self.ids@)
    }
}

/// Takes a request to add records to the context `name`. A time is read from `clock` for
/// each. For a request that is refused nothing is drawn from `source`, and no time is read.
pub fn add_records<S>(
    source: &mut IdSource,
    clock: &mut Clock,
    store: Option<S>,
    name: String,
    req: AddRecordsRequest,
) -> (call: Result<AddRecordsCall<S>, AppError>)
    ensures
        match add_refusal(store is Some, name@, req.records@) {
            Some(refusal) => {
                &&& call is Err
                &&& call->Err_0@ == refusal
                &&& final(source)@ == old(source)@
                &&& final(clock)@ == old(clock)@
            },
            None => {
                &&& call is Ok
                &&& call->Ok_0.store == store->0
                &&& final(source)@.len() == old(source)@.len() + 1 + req.records.len()
                &&& final(source)@.take(old(source)@.len() as int) == old(source)@
                &&& call->Ok_0.writes(
                    req.records@,
                    final(source)@.skip(old(source)@.len() as int),
                )
                &&& final(clock)@ == old(clock)@ + convert::creation_times(call->Ok_0.records@)
            },
        },
        call is Ok <==> store is Some && req.records.len() > 0,
        req.records.len() == 0 ==> (call matches Err(AppError::InvalidRequest(message)) && message@
            == "records array must not be empty"@),
        req.records.len() > 0 && store is None ==> (call matches Err(AppError::NotFound(message)) && message@
            == "Context '"@ + name@ + "' does not exist"@),
        call is Err ==> final(source)@ == old(source)@ && final(clock)@ == old(clock)@,
        call is Ok ==> {
            &&& call->Ok_0.store == store->0
            &&& call->Ok_0.ids.len() == req.records.len()
            &&& call->Ok_0.records.len() == req.records.len()
            &&& final(source)@.len() == old(source)@.len() + 1 + req.records.len()
            &&& final(clock)@.len() == old(clock)@.len() + req.records.len()
        },
        call is Ok ==> forall|i: int|
            #![trigger call->Ok_0.records[i]]
            0 <= i < req.records.len() ==> {
                &&& call->Ok_0.records[i].run_id@ == final(source)@[old(source)@.len() as int]
                &&& call->Ok_0.records[i].id@ == final(source)@[old(source)@.len() + 1 + i]
                &&& call->Ok_0.ids[i]@ == call->Ok_0.records[i].id@
                &&& call->Ok_0.records[i].created_at == final(clock)@[old(clock)@.len() + i]
            },
{
    if req.records.len() == 0 {
        return Err(AppError::InvalidRequest("records array must not be empty".to_owned()));
    }
    match require_store(store, &name) {
        Ok(store) => {
            let run_id = source.draw();
            let mut ids: Vec<String> = Vec::with_capacity(req.records.len());
            for i in 0..req.records.len()
                invariant
                    ids.len() == i,
                    ids::is_uuid_v4(run_id@),
                    forall|j: int| 0 <= j < i ==> ids::is_uuid_v4(#[trigger] ids[j]@),
                    source@ == old(source)@.push(run_id@) + model::seq_view(ids@),
            {
                let ghost before = ids@;
                let id = source.draw();
                ids.push(id);
                assert(model::seq_view(ids@) == model::seq_view(before).push(id@));
            }
            let records = records_with_ids(clock, &req.records, &run_id, &ids);
            let ghost drawn = source@.skip(old(source)@.len() as int);
            assert(drawn == seq![run_id@] + model::seq_view(ids@));
            assert(source@.take(old(source)@.len() as int) == old(source)@);
            assert forall|i: int| #![trigger records[i]] 0 <= i < records.len() implies ids[i]@
                == source@[old(source)@.len() + 1 + i] by {
                assert(model::seq_view(ids@)[i] == ids[i]@);
            }
            Ok(AddRecordsCall { store, ids, records })
        },
        Err(error) => Err(error),
    }
}

/// Answers a request to add records, by the version that the store then had.
pub fn add_records_reply<S>(call: AddRecordsCall<S>, reply: Result<u64, String>) -> (response:
    Result<(StatusCode, AddRecordsResponse), AppError>)
    ensures
        match reply {
            Ok(version) => response == Ok::<(StatusCode, AddRecordsResponse), AppError>(
                (
                    StatusCode::CREATED,
                    (AddRecordsResponse { version, ids: call.ids, count: call.records.len() }),
                ),
            ),
            Err(message) => response == Err::<(StatusCode, AddRecordsResponse), AppError>(
                AppError::Lance(message),
            ),
        },
{
    let count: usize = call.records.len();
    match reply {
        Ok(version) => Ok(
            (StatusCode::CREATED, AddRecordsResponse { version, ids: call.ids, count }),
        ),
        Err(message) => Err(AppError::from_lance(message)),
    }
}

// Replacing a record, or adding it

/// Why a request to upsert by `key` a record with this external identifier is refused,
/// if it is.
pub open spec fn upsert_refusal(
    found: bool,
    name: Seq<char>,
    key: Seq<char>,
    external_id: Option<Seq<char>>,
) -> Option<AppErrorView> {
    if key != "external_id"@ {
        Some(
            AppErrorView::InvalidRequest(
                "upsert key '"@ + key + "' is not supported; use 'external_id'"@,
            ),
        )
    } else if external_id is None || external_id->0.len() == 0 {
        Some(AppErrorView::InvalidRequest("upsert requires record.external_id"@))
    } else {
        lookup_refusal(found, name)
    }
}

/// A record for `store` to put in the place of the one with the same external
/// identifier, or to add where there is none.
#[derive(Debug, PartialEq)]
pub struct UpsertRecordCall<S> {
    pub store: S,
    pub record: ContextRecord,
}

impl<S> UpsertRecordCall<S> {
    /// The call writes what `request` asks for, with this identifier and this run.
    pub open spec fn writes(
        self,
        request: AddRecordRequest,
        id: Seq<char>,
        run_id: Seq<char>,
    ) -> bool {
        &&& ids::is_uuid_v4(id)
        &&& ids::is_uuid_v4(run_id)
        &&& self.record.created_at.nanos < 1_000_000_000
        &&& self.record@ == convert::new_record(request@, id, run_id, self.record.created_at)
    }
}

/// What the store replies to an upsert.
#[derive(Debug, PartialEq)]
pub struct UpsertResult {
    pub version: u64,
    pub inserted: bool,
    pub replaced_id: Option<String>,
    pub record: ContextRecord,
}

/// Takes a request to upsert a record of the context `name`: its identifier is drawn from
/// `source`, and then its run, and its time is read from `clock`. For a request that is
/// refused nothing is drawn, and no time is read.
pub fn upsert_record<S>(
    source: &mut IdSource,
    clock: &mut Clock,
    store: Option<S>,
    name: String,
    req: UpsertRecordRequest,
) -> (call: Result<UpsertRecordCall<S>, AppError>)
    ensures
        match upsert_refusal(
            store is Some,
            name@,
            req.key@,
            model::opt_view(req.record.external_id),
        ) {
            Some(refusal) => {
                &&& call is Err
                &&& call->Err_0@ == refusal
                &&& final(source)@ == old(source)@
                &&& final(clock)@ == old(clock)@
            },
            None => {
                &&& call is Ok
                &&& call->Ok_0.store == store->0
                &&& final(source)@ == old(source)@.push(call->Ok_0.record.id@).push(
                    call->Ok_0.record.run_id@,
                )
                &&& call->Ok_0.writes(
                    req.record,
                    call->Ok_0.record.id@,
                    call->Ok_0.record.run_id@,
                )
                &&& final(clock)@ == old(clock)@.push(call->Ok_0.record.created_at)
            },
        },
        call is Ok <==> {
            &&& store is Some
            &&& req.key@ == "external_id"@
            &&& req.record.external_id is Some
            &&& req.record.external_id->0@.len() > 0
        },
        req.key@ != "external_id"@ ==> (call matches Err(AppError::InvalidRequest(message)) && message@
            == "upsert key '"@ + req.key@ + "' is not supported; use 'external_id'"@),
        req.key@ == "external_id"@ && (req.record.external_id is None
            || req.record.external_id->0@.len() == 0) ==> (call matches Err(AppError::InvalidRequest(message)) && message@
            == "upsert requires record.external_id"@),
        req.key@ == "external_id"@ && req.record.external_id is Some
            && req.record.external_id->0@.len() > 0 && store is None ==> (call matches Err(AppError::NotFound(message)) && message@
            == "Context '"@ + name@ + "' does not exist"@),
        call is Err ==> final(source)@ == old(source)@ && final(clock)@ == old(clock)@,
        call is Ok ==> {
            &&& call->Ok_0.store == store->0
            &&& final(source)@ == old(source)@ + seq![
                call->Ok_0.record.id@,
                call->Ok_0.record.run_id@,
            ]
            &&& final(clock)@ == old(clock)@ + seq![call->Ok_0.record.created_at]
        },
{
    if req.key != "external_id".to_owned() {
        return Err(
            AppError::InvalidRequest(
                "upsert key '".to_owned().concat(req.key.as_str()).concat(
                    "' is not supported; use 'external_id'",
                ),
            ),
        );
    }
    let keyed = match &req.record.external_id {
        Some(external_id) => !external_id.as_str().is_empty(),
        None => false,
    };
    if !keyed {
        return Err(AppError::InvalidRequest("upsert requires record.external_id".to_owned()));
    }
    match require_store(store, &name) {
        Ok(store) => {
            let id = source.draw();
            let run_id = source.draw();
            let record = record_from_add_request(clock, &req.record, id, run_id);
            Ok(UpsertRecordCall { store, record })
        },
        Err(error) => Err(error),
    }
}

/// Answers a request to upsert a record: a record that was added is `CREATED`, one that
/// took the place of another is `OK`.
pub fn upsert_record_reply(reply: Result<UpsertResult, String>) -> (response: Result<
    (StatusCode, UpsertRecordResponse),
    AppError,
>)
    ensures
        match reply {
            Ok(result) => {
                &&& response is Ok
                &&& response->Ok_0.0 == if result.inserted {
                    StatusCode::CREATED
                } else {
                    StatusCode::OK
                }
                &&& response->Ok_0.1.version == result.version
                &&& response->Ok_0.1.inserted == result.inserted
                &&& response->Ok_0.1.replaced_id == result.replaced_id
                &&& response->Ok_0.1.record@ == result.record@
            },
            Err(message) => response == Err::<(StatusCode, UpsertRecordResponse), AppError>(
                AppError::Lance(message),
            ),
        },
{
    match reply {
        Ok(result) => {
            let status = if result.inserted {
                StatusCode::CREATED
            } else {
                StatusCode::OK
            };
            Ok(
                (
                    status,
                    UpsertRecordResponse {
                        version: result.version,
                        inserted: result.inserted,
                        replaced_id: result.replaced_id,
                        record: record_to_dto(result.record),
                    },
                ),
            )
        },
        Err(message) => Err(AppError::from_lance(message)),
    }
}

// Patching a record

/// What finds a record: its own identifier, or the one that its author gave it.
#[derive(Clone, Debug, PartialEq)]
pub enum RecordKey {
    Id(String),
    ExternalId(String),
}

/// Why a request to apply `patch` to the record with this identifier or this external
/// identifier is refused, if it is.
pub open spec fn update_refusal(
    found: bool,
    name: Seq<char>,
    id: Option<String>,
    external_id: Option<String>,
    patch: PatchView,
) -> Option<AppErrorView> {
    if patch == PatchView::empty() {
        Some(AppErrorView::InvalidRequest("update requires at least one patch field"@))
    } else if !found {
        Some(error::context_missing(name))
    } else if id is None && external_id is None {
        Some(AppErrorView::InvalidRequest("update requires either id or external_id"@))
    } else if id is Some && external_id is Some {
        Some(AppErrorView::InvalidRequest("update accepts only one of id or external_id"@))
    } else {
        None
    }
}

/// A patch for `store` to apply to the record that `key` finds.
#[derive(Debug, PartialEq)]
pub struct UpdateRecordCall<S> {
    pub store: S,
    pub key: RecordKey,
    pub patch: RecordPatch,
}

impl<S> UpdateRecordCall<S> {
    /// The call applies the patch of `request` to the record that it names.
    pub open spec fn applies(self, request: UpdateRecordRequest) -> bool {
        &&& self.patch@ == request.patch@
        &&& match self.key {
            RecordKey::Id(id) => request.id == Some(id) && request.external_id is None,
            RecordKey::ExternalId(id) => request.id is None && request.external_id == Some(id),
        }
    }
}

/// What the store replies to a patch of a record that is there.
#[derive(Debug, PartialEq)]
pub struct UpdateResult {
    pub version: u64,
    pub replaced_id: String,
    pub record: ContextRecord,
}

/// Takes a request to patch a record of the context `name`.
pub fn update_record<S>(store: Option<S>, name: String, req: UpdateRecordRequest) -> (call: Result<
    UpdateRecordCall<S>,
    AppError,
>)
    ensures
        match update_refusal(store is Some, name@, req.id, req.external_id, req.patch@) {
            Some(refusal) => call is Err && call->Err_0@ == refusal,
            None => call is Ok && call->Ok_0.store == store->0 && call->Ok_0.applies(req),
        },
        call is Ok <==> {
            &&& store is Some
            &&& req.patch@ != PatchView::empty()
            &&& (req.id is Some) != (req.external_id is Some)
        },
        req.patch@ == PatchView::empty() ==> (call matches Err(AppError::InvalidRequest(message)) && message@
            == "update requires at least one patch field"@),
        req.patch@ != PatchView::empty() && store is None ==> (call matches Err(AppError::NotFound(message)) && message@
            == "Context '"@ + name@ + "' does not exist"@),
        req.patch@ != PatchView::empty() && store is Some && req.id is None && req.external_id is None
            ==> (call matches Err(AppError::InvalidRequest(message)) && message@
            == "update requires either id or external_id"@),
        req.patch@ != PatchView::empty() && store is Some && req.id is Some && req.external_id is Some
            ==> (call matches Err(AppError::InvalidRequest(message)) && message@
            == "update accepts only one of id or external_id"@),
        call is Ok ==> {
            &&& call->Ok_0.store == store->0
            &&& call->Ok_0.patch@ == req.patch@
            &&& req.id is Some ==> call->Ok_0.key == RecordKey::Id(req.id->0)
            &&& req.external_id is Some ==> call->Ok_0.key == RecordKey::ExternalId(
                req.external_id->0,
            )
        },
{
    if req.patch.is_empty() {
        return Err(AppError::InvalidRequest("update requires at least one patch field".to_owned()));
    }
    match require_store(store, &name) {
        Ok(store) => {
            let patch = patch_from_dto(&req.patch);
            match (req.id, req.external_id) {
                (Some(id), None) => Ok(UpdateRecordCall { store, key: RecordKey::Id(id), patch }),
                (None, Some(external_id)) => Ok(
                    UpdateRecordCall { store, key: RecordKey::ExternalId(external_id), patch },
                ),
                (None, None) => Err(
                    AppError::InvalidRequest("update requires either id or external_id".to_owned()),
                ),
                (Some(_), Some(_)) => Err(
                    AppError::InvalidRequest(
                        "update accepts only one of id or external_id".to_owned(),
                    ),
                ),
            }
        },
        Err(error) => Err(error),
    }
}

/// Answers a request to patch a record. Where the store had no such record, the
/// response gives the store's own `version`.
pub fn update_record_reply(reply: Result<Option<UpdateResult>, String>, version: u64) -> (response:
    Result<UpdateRecordResponse, AppError>)
    ensures
        match reply {
            Ok(Some(result)) => {
                &&& response is Ok
                &&& response->Ok_0.version == result.version
                &&& response->Ok_0.updated
                &&& response->Ok_0.replaced_id == Some(result.replaced_id)
                &&& model::opt_view(response->Ok_0.record) == Some(result.record@)
            },
            Ok(None) => response == Ok::<UpdateRecordResponse, AppError>(
                (UpdateRecordResponse {
                    version,
                    updated: false,
                    replaced_id: None,
                    record: None,
                }),
            ),
            Err(message) => response == Err::<UpdateRecordResponse, AppError>(
                AppError::Lance(message),
            ),
        },
        response is Ok ==> {
            &&& response->Ok_0.updated == (response->Ok_0.replaced_id is Some)
            &&& response->Ok_0.updated == (response->Ok_0.record is Some)
        },
        reply matches Ok(Some(result)) ==> response is Ok && response->Ok_0.record is Some
            && response->Ok_0.record->0@ == result.record@,
{
    match reply {
        Ok(Some(result)) => Ok(
            UpdateRecordResponse {
                version: result.version,
                updated: true,
                replaced_id: Some(result.replaced_id),
                record: Some(record_to_dto(result.record)),
            },
        ),
        Ok(None) => Ok(
            UpdateRecordResponse { version, updated: false, replaced_id: None, record: None },
        ),
        Err(message) => Err(AppError::from_lance(message)),
    }
}

// Reading a record

/// What finds a record that is named by its external identifier.
#[derive(Clone, Debug, PartialEq)]
pub struct ExternalIdParams {
    pub external_id: String,
}

/// A record for `store` to read: the one that `key` finds.
#[derive(Debug, PartialEq)]
pub struct GetRecordCall<S> {
    pub store: S,
    pub key: RecordKey,
}

/// Takes a request to read a record of the context `name` by its identifier.
pub fn get_record<S>(store: Option<S>, name: String, id: String) -> (call: Result<
    GetRecordCall<S>,
    AppError,
>)
    ensures
        match lookup_refusal(store is Some, name@) {
            Some(refusal) => call is Err && call->Err_0@ == refusal,
            None => call == Ok::<GetRecordCall<S>, AppError>(
                (GetRecordCall { store: store->0, key: RecordKey::Id(id) }),
            ),
        },
        call is Ok <==> store is Some,
        call is Ok ==> call->Ok_0.store == store->0 && call->Ok_0.key == RecordKey::Id(id),
        store is None ==> (call matches Err(AppError::NotFound(message)) && message@
            == "Context '"@ + name@ + "' does not exist"@),
{
    match require_store(store, &name) {
        Ok(store) => Ok(GetRecordCall { store, key: RecordKey::Id(id) }),
        Err(error) => Err(error),
    }
}

/// Takes a request to read a record of the context `name` by its external identifier.
pub fn get_record_by_external_id<S>(
    store: Option<S>,
    name: String,
    params: ExternalIdParams,
) -> (call: Result<GetRecordCall<S>, AppError>)
    ensures
        match lookup_refusal(store is Some, name@) {
            Some(refusal) => call is Err && call->Err_0@ == refusal,
            None => call == Ok::<GetRecordCall<S>, AppError>(
                (GetRecordCall { store: store->0, key: RecordKey::ExternalId(params.external_id) }),
            ),
        },
        call is Ok <==> store is Some,
        call is Ok ==> call->Ok_0.store == store->0 && call->Ok_0.key == RecordKey::ExternalId(params.external_id),
        store is None ==> (call matches Err(AppError::NotFound(message)) && message@
            == "Context '"@ + name@ + "' does not exist"@),
{
    match require_store(store, &name) {
        Ok(store) => Ok(GetRecordCall { store, key: RecordKey::ExternalId(params.external_id) }),
        Err(error) => Err(error),
    }
}

/// Answers a request to read a record, which the store may not have.
pub fn get_record_reply(reply: Result<Option<ContextRecord>, String>) -> (response: Result<
    GetRecordResponse,
    AppError,
>)
    ensures
        match reply {
            Ok(record) => response is Ok && model::opt_view(response->Ok_0.record)
                == model::opt_view(record),
            Err(message) => response == Err::<GetRecordResponse, AppError>(
                AppError::Lance(message),
            ),
        },
        reply is Ok ==> {
            &&& response is Ok
            &&& (response->Ok_0.record is Some) == (reply->Ok_0 is Some)
            &&& reply->Ok_0 is Some ==> response->Ok_0.record->0@ == reply->Ok_0->0@
        },
{
    match reply {
        Ok(Some(record)) => Ok(GetRecordResponse { record: Some(record_to_dto(record)) }),
        Ok(None) => Ok(GetRecordResponse { record: None }),
        Err(message) => Err(AppError::from_lance(message)),
    }
}

// Deleting a record

/// A record for `store` to delete: the one that `key` finds.
#[derive(Debug, PartialEq)]
pub struct DeleteRecordCall<S> {
    pub store: S,
    pub key: RecordKey,
}

/// Takes a request to delete a record of the context `name` by its identifier.
pub fn delete_record<S>(store: Option<S>, name: String, id: String) -> (call: Result<
    DeleteRecordCall<S>,
    AppError,
>)
    ensures
        match lookup_refusal(store is Some, name@) {
            Some(refusal) => call is Err && call->Err_0@ == refusal,
            None => call == Ok::<DeleteRecordCall<S>, AppError>(
                (DeleteRecordCall { store: store->0, key: RecordKey::Id(id) }),
            ),
        },
        call is Ok <==> store is Some,
        call is Ok ==> call->Ok_0.store == store->0 && call->Ok_0.key == RecordKey::Id(id),
        store is None ==> (call matches Err(AppError::NotFound(message)) && message@
            == "Context '"@ + name@ + "' does not exist"@),
{
    match require_store(store, &name) {
        Ok(store) => Ok(DeleteRecordCall { store, key: RecordKey::Id(id) }),
        Err(error) => Err(error),
    }
}

/// Takes a request to delete a record of the context `name` by its external identifier.
pub fn delete_record_by_external_id<S>(
    store: Option<S>,
    name: String,
    params: ExternalIdParams,
) -> (call: Result<DeleteRecordCall<S>, AppError>)
    ensures
        match lookup_refusal(store is Some, name@) {
            Some(refusal) => call is Err && call->Err_0@ == refusal,
            None => call == Ok::<DeleteRecordCall<S>, AppError>(
                (DeleteRecordCall {
                    store: store->0,
                    key: RecordKey::ExternalId(params.external_id),
                }),
            ),
        },
        call is Ok <==> store is Some,
        call is Ok ==> call->Ok_0.store == store->0 && call->Ok_0.key == RecordKey::ExternalId(params.external_id),
        store is None ==> (call matches Err(AppError::NotFound(message)) && message@
            == "Context '"@ + name@ + "' does not exist"@),
{
    match require_store(store, &name) {
        Ok(store) => Ok(DeleteRecordCall { store, key: RecordKey::ExternalId(params.external_id) }),
        Err(error) => Err(error),
    }
}

/// Answers a request to delete a record: whether the store had it, and the store's
/// `version` after that.
pub fn delete_record_reply(reply: Result<bool, String>, version: u64) -> (response: Result<
    DeleteRecordResponse,
    AppError,
>)
    ensures
        match reply {
            Ok(deleted) => response == Ok::<DeleteRecordResponse, AppError>(
                (DeleteRecordResponse { deleted, version }),
            ),
            Err(message) => response == Err::<DeleteRecordResponse, AppError>(
                AppError::Lance(message),
            ),
        },
{
    match reply {
        Ok(deleted) => Ok(DeleteRecordResponse { deleted, version }),
        Err(message) => Err(AppError::from_lance(message)),
    }
}

// Listing records

/// Which records to list.
#[derive(Clone, Debug, PartialEq)]
pub struct ListParams {
    pub limit: Option<usize>,
    pub offset: Option<usize>,
    /// A JSON object that says which records to list.
    pub filters: Option<String>,
    pub include_expired: bool,
    pub include_retired: bool,
}

impl Default for ListParams {
    /// Every record in use.
    fn default() -> (params: Self)
        ensures
            params == (ListParams {
                limit: None,
                offset: None,
                filters: None,
                include_expired: false,
                include_retired: false,
            }),
    {
        ListParams {
            limit: None,
            offset: None,
            filters: None,
            include_expired: false,
            include_retired: false,
        }
    }
}

/// A request to list records whose filters are JSON, if it has any. What the JSON means
/// is for the store to say.
#[derive(Debug, PartialEq)]
pub struct ListRecordsRequest {
    pub name: String,
    pub params: ListParams,
    pub filters: Option<Value>,
}

/// What a list of records asks of `store`. `F` is the store's own form of filters.
#[derive(Debug, PartialEq)]
pub struct ListRecordsCall<S, F> {
    pub store: S,
    pub limit: Option<usize>,
    pub offset: Option<usize>,
    pub filters: Option<F>,
    pub options: LifecycleQueryOptions,
}

/// What the text of a request's filters is answered with, if it is not JSON: `message`
/// says why.
pub open spec fn filters_not_json(message: Seq<char>) -> AppErrorView {
    AppErrorView::InvalidRequest("invalid filters JSON: "@ + message)
}

/// Takes a request to list records of the context `name`: reads its filters as JSON.
pub fn list_records(name: String, params: ListParams) -> (request: Result<
    ListRecordsRequest,
    AppError,
>)
    ensures
        match params.filters {
            Some(text) => match json::parsed_json(text@) {
                Ok(value) => request == Ok::<ListRecordsRequest, AppError>(
                    (ListRecordsRequest { name, params, filters: Some(value) }),
                ),
                Err(message) => request is Err && request->Err_0@ == filters_not_json(message),
            },
            None => request == Ok::<ListRecordsRequest, AppError>(
                (ListRecordsRequest { name, params, filters: None }),
            ),
        },
        request is Ok <==> params.filters is None || json::parsed_json(params.filters->0@) is Ok,
        request is Ok ==> {
            &&& request->Ok_0.name == name
            &&& request->Ok_0.params == params
            &&& (request->Ok_0.filters is Some) == (params.filters is Some)
        },
        request is Err ==> (request matches Err(AppError::InvalidRequest(message)) && message@
            == "invalid filters JSON: "@ + json::parsed_json(params.filters->0@)->Err_0),
{
    let parsed = match &params.filters {
        Some(text) => Some(parse_json(text.as_str())),
        None => None,
    };
    list_records_parsed(name, params, parsed)
}

/// The request to list records whose filters were read as JSON: `parsed` is the value,
/// or the message that says why there is none.
pub fn list_records_parsed(
    name: String,
    params: ListParams,
    parsed: Option<Result<Value, String>>,
) -> (request: Result<ListRecordsRequest, AppError>)
    ensures
        match parsed {
            Some(Ok(value)) => request == Ok::<ListRecordsRequest, AppError>(
                (ListRecordsRequest { name, params, filters: Some(value) }),
            ),
            Some(Err(message)) => request is Err && request->Err_0@ == filters_not_json(message@),
            None => request == Ok::<ListRecordsRequest, AppError>(
                (ListRecordsRequest { name, params, filters: None }),
            ),
        },
        parsed matches Some(Err(reason)) ==> (request matches Err(AppError::InvalidRequest(message))
            && message@ == "invalid filters JSON: "@ + reason@),
{
    match parsed {
        Some(Ok(value)) => Ok(ListRecordsRequest { name, params, filters: Some(value) }),
        Some(Err(message)) => Err(
            AppError::InvalidRequest(
                "invalid filters JSON: ".to_owned().concat(message.as_str()),
            ),
        ),
        None => Ok(ListRecordsRequest { name, params, filters: None }),
    }
}

/// Why a request to list records is refused, if it is, once its filters were given to
/// the store's rules: `filters` is what they made of them, or the message that says what
/// is wrong with them.
pub open spec fn list_refusal<F>(
    found: bool,
    name: Seq<char>,
    filters: Result<Option<F>, String>,
) -> Option<AppErrorView> {
    match filters {
        Ok(_) => lookup_refusal(found, name),
        Err(message) => Some(AppErrorView::InvalidRequest(message@)),
    }
}

/// What comes of a request to list records, once the store's rules made `filters` of its
/// filters: the refusal, or the call that the request asks for.
pub open spec fn list_outcome<S, F>(
    store: Option<S>,
    name: Seq<char>,
    params: ListParams,
    filters: Result<Option<F>, String>,
    call: Result<ListRecordsCall<S, F>, AppError>,
) -> bool {
    match list_refusal(store is Some, name, filters) {
        Some(refusal) => call is Err && call->Err_0@ == refusal,
        None => call == Ok::<ListRecordsCall<S, F>, AppError>(
            (ListRecordsCall {
                store: store->0,
                limit: params.limit,
                offset: params.offset,
                filters: filters->Ok_0,
                options: LifecycleQueryOptions {
                    include_expired: params.include_expired,
                    include_retired: params.include_retired,
                },
            }),
        ),
    }
}

/// Takes a request to list records further: has `read`, the store's rules, make filters of
/// its JSON. Only a request without filters goes to the store without any.
pub fn list_records_read<S, F, R: FnOnce(Value) -> Result<F, String>>(
    store: Option<S>,
    request: ListRecordsRequest,
    read: R,
) -> (call: Result<ListRecordsCall<S, F>, AppError>)
    requires
        request.filters is Some ==> call_requires(read, (request.filters->0,)),
    ensures
        match request.filters {
            Some(value) => exists|made: Result<F, String>| #[trigger]
                call_ensures(read, (value,), made) && list_outcome(
                    store,
                    request.name@,
                    request.params,
                    match made {
                        Ok(filters) => Ok(Some(filters)),
                        Err(message) => Err(message),
                    },
                    call,
                ),
            None => list_outcome(store, request.name@, request.params, Ok(None), call),
        },
        request.filters is None ==> (call is Ok <==> store is Some),
        call is Ok ==> store is Some,
        call is Ok ==> {
            &&& call->Ok_0.store == store->0
            &&& call->Ok_0.limit == request.params.limit
            &&& call->Ok_0.offset == request.params.offset
            &&& call->Ok_0.options.include_expired == request.params.include_expired
            &&& call->Ok_0.options.include_retired == request.params.include_retired
            &&& (call->Ok_0.filters is Some) == (request.filters is Some)
            &&& request.filters is Some ==> call_ensures(
                read,
                (request.filters->0,),
                Ok(call->Ok_0.filters->0),
            )
        },
        call is Err && request.filters is Some && store is Some ==> (call matches Err(
            AppError::InvalidRequest(message),
        ) && call_ensures(read, (request.filters->0,), Err(message))),
        call is Err && request.filters is None ==> (call matches Err(AppError::NotFound(message))
            && message@ == "Context '"@ + request.name@ + "' does not exist"@),
{
    let ListRecordsRequest { name, params, filters } = request;
    match filters {
        Some(value) => match read(value) {
            Ok(filters) => list_records_call(store, name, params, Ok(Some(filters))),
            Err(message) => list_records_call(store, name, params, Err(message)),
        },
        None => list_records_call(store, name, params, Ok(None)),
    }
}

/// Takes a request to list records on, with what the store's rules made of its filters:
/// none where it has none.
pub fn list_records_call<S, F>(
    store: Option<S>,
    name: String,
    params: ListParams,
    filters: Result<Option<F>, String>,
) -> (call: Result<ListRecordsCall<S, F>, AppError>)
    ensures
        list_outcome(store, name@, params, filters, call),
        call is Ok <==> store is Some && filters is Ok,
        filters matches Err(reason) ==> call == Err::<ListRecordsCall<S, F>, AppError>(
            AppError::InvalidRequest(reason),
        ),
        filters is Ok && store is None ==> (call matches Err(AppError::NotFound(message)) && message@
            == "Context '"@ + name@ + "' does not exist"@),
        call is Ok ==> {
            &&& call->Ok_0.store == store->0
            &&& call->Ok_0.limit == params.limit
            &&& call->Ok_0.offset == params.offset
            &&& call->Ok_0.options.include_expired == params.include_expired
            &&& call->Ok_0.options.include_retired == params.include_retired
            &&& call->Ok_0.filters == filters->Ok_0
        },
{
    match filters {
        Ok(filters) => match require_store(store, &name) {
            Ok(store) => Ok(
                ListRecordsCall {
                    store,
                    limit: params.limit,
                    offset: params.offset,
                    filters,
                    options: LifecycleQueryOptions::new(
                        params.include_expired,
                        params.include_retired,
                    ),
                },
            ),
            Err(error) => Err(error),
        },
        Err(message) => Err(AppError::InvalidRequest(message)),
    }
}

/// Answers a request for records: shows those that the store replied with, in its order.
pub fn list_records_reply(reply: Result<Vec<ContextRecord>, String>) -> (response: Result<
    ListRecordsResponse,
    AppError,
>)
    ensures
        match reply {
            Ok(records) => response is Ok && model::seq_view(response->Ok_0.records@)
                == model::seq_view(records@),
            Err(message) => response == Err::<ListRecordsResponse, AppError>(
                AppError::Lance(message),
            ),
        },
        reply matches Ok(records) ==> {
            &&& response is Ok
            &&& response->Ok_0.records.len() == records.len()
            &&& forall|i: int|
                0 <= i < records.len() ==> #[trigger] response->Ok_0.records[i]@ == records[i]@
        },
{
    match reply {
        Ok(records) => Ok(ListRecordsResponse { records: records_to_dto(records) }),
        Err(message) => Err(AppError::from_lance(message)),
    }
}

// Listing related records

/// Which records to list of those that are related to `target_id`: by any relation, or by
/// one.
#[derive(Clone, Debug, PartialEq)]
pub struct RelatedParams {
    pub target_id: String,
    pub relation: Option<String>,
    pub limit: Option<usize>,
    pub include_expired: bool,
    pub include_retired: bool,
}

/// What a list of related records asks of `store`.
#[derive(Debug, PartialEq)]
pub struct RelatedRecordsCall<S> {
    pub store: S,
    pub target_id: String,
    pub relation: Option<String>,
    pub limit: Option<usize>,
    pub options: LifecycleQueryOptions,
}

/// Takes a request to list the records of the context `name` that are related to
/// another. [`list_records_reply`] answers it.
pub fn related_records<S>(store: Option<S>, name: String, params: RelatedParams) -> (call: Result<
    RelatedRecordsCall<S>,
    AppError,
>)
    ensures
        match lookup_refusal(store is Some, name@) {
            Some(refusal) => call is Err && call->Err_0@ == refusal,
            None => call == Ok::<RelatedRecordsCall<S>, AppError>(
                (RelatedRecordsCall {
                    store: store->0,
                    target_id: params.target_id,
                    relation: params.relation,
                    limit: params.limit,
                    options: LifecycleQueryOptions {
                        include_expired: params.include_expired,
                        include_retired: params.include_retired,
                    },
                }),
            ),
        },
        call is Ok <==> store is Some,
        call is Ok ==> {
            &&& call->Ok_0.store == store->0
            &&& call->Ok_0.target_id == params.target_id
            &&& call->Ok_0.relation == params.relation
            &&& call->Ok_0.limit == params.limit
            &&& call->Ok_0.options.include_expired == params.include_expired
            &&& call->Ok_0.options.include_retired == params.include_retired
        },
        store is None ==> (call matches Err(AppError::NotFound(message)) && message@
            == "Context '"@ + name@ + "' does not exist"@),
{
    match require_store(store, &name) {
        Ok(store) => Ok(
            RelatedRecordsCall {
                store,
                target_id: params.target_id,
                relation: params.relation,
                limit: params.limit,
                options: LifecycleQueryOptions::new(
                    params.include_expired,
                    params.include_retired,
                ),
            },
        ),
        Err(error) => Err(error),
    }
}

} // verus!
