//! What holds of the library as a whole.

use vstd::prelude::*;

use crate::api::{
    AddRecordRequest, AddRecordView, AddRecordsResponse, GetRecordResponse, RecordDto,
    RecordPatchDto, RelationshipDto, UpdateRecordRequest, UpsertRecordRequest,
    UpsertRecordResponse,
};
use crate::clock::{Clock, Timestamp};
use crate::convert;
use crate::error;
use crate::error::{AppError, AppErrorView};
use crate::ids;
use crate::ids::IdSource;
use crate::model;
use crate::model::{
    ContextRecord, LifecycleStatus, PatchView, RecordPatch, RecordView, Relationship,
    LIFECYCLE_ACTIVE,
};
use crate::routes::records;
use crate::routes::records::{
    AddRecordsCall, ListParams, ListRecordsCall, UpdateRecordCall, UpsertRecordCall,
};

verus! {

/// A relationship that is put into the store's form and shown again is the same, and
/// so is one of the store that is shown and put back.
pub proof fn relationships_survive_both_ways(
    dto: RelationshipDto,
    stored: Relationship,
    shown: RelationshipDto,
    restored: Relationship,
)
    requires
        stored@ == dto@,
        shown@ == stored@,
        restored@ == shown@,
    ensures
        shown.target_id@ == dto.target_id@ && shown.relation@ == dto.relation@ && shown.weight
            == dto.weight,
        restored.target_id@ == stored.target_id@ && restored.relation@ == stored.relation@
            && restored.weight == stored.weight,
{
}

/// A record is shown with all that its author said of it.
pub open spec fn says(shown: RecordView, request: AddRecordView) -> bool {
    &&& shown.external_id == request.external_id
    &&& shown.bot_id == request.bot_id
    &&& shown.session_id == request.session_id
    &&& shown.tenant == request.tenant
    &&& shown.source == request.source
    &&& shown.role == request.role
    &&& shown.content_type == request.content_type
    &&& shown.text_payload == request.text_payload
    &&& shown.binary_payload == request.binary_payload
    &&& shown.embedding == request.embedding
    &&& shown.state_metadata == request.state_metadata
    &&& shown.metadata == request.metadata
    &&& shown.relationships == request.relationships
    &&& shown.expires_at == request.expires_at
    &&& shown.retention_policy == request.retention_policy
    &&& shown.supersedes_id == request.supersedes_id
}

/// A record that was added and is read from the store as it was written is shown with
/// the identifier that the response to the addition gave for it, and with all that its
/// author said of it.
pub proof fn added_record_reads_back<S>(
    requests: Seq<AddRecordRequest>,
    drawn: Seq<Seq<char>>,
    call: AddRecordsCall<S>,
    i: int,
    response: GetRecordResponse,
)
    requires
        call.writes(requests, drawn),
        0 <= i < requests.len(),
        model::opt_view(response.record) == model::opt_view(Some(call.records[i])),
    ensures
        response.record is Some,
        response.record->0@.id == call.ids[i]@,
        says(response.record->0@, requests[i]@),
{
    assert(call.records[i]@.id == call.ids[i]@);
}

/// A record that was upserted, and that the store replies with as it was written, is shown
/// with all that its author said of it.
pub proof fn upserted_record_reads_back<S>(
    request: AddRecordRequest,
    id: Seq<char>,
    run_id: Seq<char>,
    call: UpsertRecordCall<S>,
    response: UpsertRecordResponse,
)
    requires
        call.writes(request, id, run_id),
        response.record@ == call.record@,
    ensures
        response.record@.id == id,
        says(response.record@, request@),
{
}

/// The response to an addition counts every record that was asked for, and gives for
/// each the identifier that it was written with.
pub proof fn added_records_are_counted<S>(
    requests: Seq<AddRecordRequest>,
    drawn: Seq<Seq<char>>,
    call: AddRecordsCall<S>,
    response: AddRecordsResponse,
)
    requires
        call.writes(requests, drawn),
        response.ids == call.ids,
        response.count == call.records.len(),
    ensures
        response.count == requests.len(),
        response.ids.len() == requests.len(),
        forall|i: int|
            0 <= i < requests.len() ==> #[trigger] response.ids[i]@ == call.records[i].id@,
{
    assert forall|i: int| 0 <= i < requests.len() implies #[trigger] response.ids[i]@
        == call.records[i].id@ by {
        assert(call.records[i]@.id == call.ids[i]@);
    }
}

/// The records of one request are of one run.
pub proof fn added_records_share_a_run<S>(
    requests: Seq<AddRecordRequest>,
    drawn: Seq<Seq<char>>,
    call: AddRecordsCall<S>,
    i: int,
    j: int,
)
    requires
        call.writes(requests, drawn),
        0 <= i < requests.len(),
        0 <= j < requests.len(),
    ensures
        call.records[i].run_id@ == call.records[j].run_id@,
{
    assert(call.records[i]@.run_id == drawn[0]);
    assert(call.records[j]@.run_id == drawn[0]);
}

/// Where the identifiers of a batch differ from each other and from the run, so do those
/// of its records.
pub proof fn different_ids_give_different_records(
    records: Seq<ContextRecord>,
    requests: Seq<AddRecordRequest>,
    run_id: Seq<char>,
    ids: Seq<String>,
)
    requires
        convert::is_batch(records, requests, run_id, ids),
        forall|i: int, j: int|
            0 <= i < j < ids.len() ==> #[trigger] ids[i]@ != #[trigger] ids[j]@,
        forall|i: int| 0 <= i < ids.len() ==> #[trigger] ids[i]@ != run_id,
    ensures
        forall|i: int, j: int|
            0 <= i < j < records.len() ==> #[trigger] records[i].id@ != #[trigger] records[j].id@,
        forall|i: int, j: int|
            0 <= i < records.len() && 0 <= j < records.len() ==> #[trigger] records[i].id@
                != #[trigger] records[j].run_id@,
{
    assert forall|i: int| 0 <= i < records.len() implies #[trigger] records[i].id@ == ids[i]@
        && records[i].run_id@ == run_id by {
        assert(records[i]@.id == ids[i]@ && records[i]@.run_id == run_id);
    }
}

/// Every record of an addition, and their run, has its own draw: where the drawn UUIDs
/// differ, so do the identifiers of the records, from each other and from the run.
pub proof fn different_draws_give_different_records<S>(
    requests: Seq<AddRecordRequest>,
    drawn: Seq<Seq<char>>,
    call: AddRecordsCall<S>,
)
    requires
        call.writes(requests, drawn),
        drawn.no_duplicates(),
    ensures
        forall|i: int, j: int|
            0 <= i < j < call.records.len() ==> #[trigger] call.records[i].id@
                != #[trigger] call.records[j].id@,
        forall|i: int, j: int|
            0 <= i < call.records.len() && 0 <= j < call.records.len()
                ==> #[trigger] call.records[i].id@ != #[trigger] call.records[j].run_id@,
{
    assert forall|i: int| 0 <= i < call.ids.len() implies #[trigger] call.ids[i]@ == drawn[i
        + 1] by {
        assert(model::seq_view(call.ids@)[i] == call.ids[i]@);
    }
    different_ids_give_different_records(call.records@, requests, drawn[0], call.ids@);
}

/// A record is written as one in use: active, neither retired nor superseded.
pub proof fn added_records_are_in_use<S>(
    requests: Seq<AddRecordRequest>,
    drawn: Seq<Seq<char>>,
    call: AddRecordsCall<S>,
    i: int,
)
    requires
        call.writes(requests, drawn),
        0 <= i < requests.len(),
    ensures
        call.records[i].lifecycle_status@ == LIFECYCLE_ACTIVE@,
        call.records[i].retired_at is None,
        call.records[i].retired_reason is None,
        call.records[i].superseded_by_id is None,
{
    let written = call.records[i]@;
    assert(written.lifecycle_status == LIFECYCLE_ACTIVE@);
    assert(written.retired_reason is None && written.superseded_by_id is None);
}

/// A record is upserted as one in use, and with an external identifier to find it by.
pub proof fn upserted_record_is_keyed_and_in_use<S>(
    found: bool,
    name: Seq<char>,
    request: UpsertRecordRequest,
    id: Seq<char>,
    run_id: Seq<char>,
    call: UpsertRecordCall<S>,
)
    requires
        records::upsert_refusal(
            found,
            name,
            request.key@,
            model::opt_view(request.record.external_id),
        ) is None,
        call.writes(request.record, id, run_id),
    ensures
        call.record.external_id is Some,
        call.record.external_id->0@ == request.record.external_id->0@,
        call.record.external_id->0@.len() > 0,
        call.record.lifecycle_status@ == LIFECYCLE_ACTIVE@,
        call.record.retired_at is None,
        call.record.retired_reason is None,
        call.record.superseded_by_id is None,
{
    let written = call.record@;
    assert(written.external_id == model::opt_view(request.record.external_id));
    assert(written.lifecycle_status == LIFECYCLE_ACTIVE@);
    assert(written.retired_reason is None && written.superseded_by_id is None);
}

/// An addition is carried out exactly if it holds a record and its context exists.
pub proof fn addition_accepted(found: bool, name: Seq<char>, requests: Seq<AddRecordRequest>)
    ensures
        records::add_refusal(found, name, requests) is None <==> found && requests.len() > 0,
{
}

/// An upsert is carried out exactly if its key is `external_id`, its record has one that
/// is not empty, and its context exists.
pub proof fn upsert_accepted(
    found: bool,
    name: Seq<char>,
    key: Seq<char>,
    external_id: Option<Seq<char>>,
)
    ensures
        records::upsert_refusal(found, name, key, external_id) is None <==> {
            &&& found
            &&& key == "external_id"@
            &&& external_id is Some
            &&& external_id->0.len() > 0
        },
{
}

/// An update is carried out exactly if it changes something, its context exists, and it
/// names its record in one way and not in both.
pub proof fn update_accepted(
    found: bool,
    name: Seq<char>,
    id: Option<String>,
    external_id: Option<String>,
    patch: PatchView,
)
    ensures
        records::update_refusal(found, name, id, external_id, patch) is None <==> {
            &&& found
            &&& patch != PatchView::empty()
            &&& (id is Some) != (external_id is Some)
        },
{
}

/// The store is never asked to apply a patch that changes nothing.
pub proof fn accepted_update_changes_something<S>(
    found: bool,
    name: Seq<char>,
    request: UpdateRecordRequest,
    call: UpdateRecordCall<S>,
)
    requires
        records::update_refusal(
            found,
            name,
            request.id,
            request.external_id,
            request.patch@,
        ) is None,
        call.applies(request),
    ensures
        call.patch@ != PatchView::empty(),
{
}

/// A request for a context that there is none of never reaches a store, whatever it
/// asks.
pub proof fn missing_context_is_never_called<F>(
    name: Seq<char>,
    requests: Seq<AddRecordRequest>,
    key: Seq<char>,
    upserted_id: Option<Seq<char>>,
    id: Option<String>,
    external_id: Option<String>,
    patch: PatchView,
    filters: Result<Option<F>, String>,
)
    ensures
        records::add_refusal(false, name, requests) is Some,
        records::upsert_refusal(false, name, key, upserted_id) is Some,
        records::update_refusal(false, name, id, external_id, patch) is Some,
        records::list_refusal(false, name, filters) is Some,
        records::lookup_refusal(false, name) == Some(error::context_missing(name)),
{
}

/// A request that is refused though its context exists gets the same answer where the
/// context does not exist. (An update that changes something and names its record in
/// both ways or in none is another matter: see `update_key_is_judged_last`.)
pub proof fn faults_come_before_the_context<F>(
    name: Seq<char>,
    requests: Seq<AddRecordRequest>,
    key: Seq<char>,
    upserted_id: Option<Seq<char>>,
    id: Option<String>,
    external_id: Option<String>,
    filters: Result<Option<F>, String>,
)
    ensures
        records::add_refusal(true, name, requests) is Some ==> records::add_refusal(
            false,
            name,
            requests,
        ) == records::add_refusal(true, name, requests),
        records::upsert_refusal(true, name, key, upserted_id) is Some ==> records::upsert_refusal(
            false,
            name,
            key,
            upserted_id,
        ) == records::upsert_refusal(true, name, key, upserted_id),
        records::update_refusal(false, name, id, external_id, PatchView::empty())
            == records::update_refusal(true, name, id, external_id, PatchView::empty()),
        records::list_refusal(true, name, filters) is Some ==> records::list_refusal(
            false,
            name,
            filters,
        ) == records::list_refusal(true, name, filters),
{
}

/// How an update names its record is looked at only once its context was found: where
/// there is none, that is the answer to every update that changes something.
pub proof fn update_key_is_judged_last(
    name: Seq<char>,
    id: Option<String>,
    external_id: Option<String>,
    patch: PatchView,
)
    requires
        patch != PatchView::empty(),
    ensures
        records::update_refusal(false, name, id, external_id, patch) == Some(
            error::context_missing(name),
        ),
        records::update_refusal(true, name, id, external_id, patch) is Some ==> (
        records::update_refusal(true, name, id, external_id, patch)->0 is InvalidRequest),
{
}

// What the views hold

/// The view of an optional value is there exactly if the value is, and is the view of it.
pub proof fn optional_views_keep_the_value<T: View>(value: Option<T>)
    ensures
        (model::opt_view(value) is Some) == (value is Some),
        value is Some ==> model::opt_view(value)->0 == value->0@,
{
}

/// The views of a list are as many as its items, each of the item at its place.
pub proof fn list_views_keep_every_item<T: View>(items: Seq<T>)
    ensures
        model::seq_view(items).len() == items.len(),
        forall|i: int| 0 <= i < items.len() ==> #[trigger] model::seq_view(items)[i] == items[i]@,
{
}

/// An error and its view are of one kind and have one message.
pub proof fn errors_are_what_their_views_say(error: AppError)
    ensures
        (error is InvalidRequest) == (error@ is InvalidRequest),
        (error is NotFound) == (error@ is NotFound),
        (error is Lance) == (error@ is Lance),
        error is InvalidRequest ==> error->InvalidRequest_0@ == error@->InvalidRequest_0,
        error is NotFound ==> error->NotFound_0@ == error@->NotFound_0,
        error is Lance ==> error->Lance_0@ == error@->Lance_0,
{
}

/// A record that is shown has every field of the one in the store.
pub proof fn shown_record_is_the_stored_one(r: ContextRecord, dto: RecordDto)
    requires
        dto@ == r@,
    ensures
        dto.id@ == r.id@,
        dto.run_id@ == r.run_id@,
        dto.role@ == r.role@,
        dto.content_type@ == r.content_type@,
        dto.lifecycle_status@ == r.lifecycle_status@,
        dto.created_at == r.created_at,
        dto.metadata == r.metadata,
        dto.expires_at == r.expires_at,
        dto.retired_at == r.retired_at,
        dto.external_id.deep_view() == r.external_id.deep_view(),
        dto.bot_id.deep_view() == r.bot_id.deep_view(),
        dto.session_id.deep_view() == r.session_id.deep_view(),
        dto.tenant.deep_view() == r.tenant.deep_view(),
        dto.source.deep_view() == r.source.deep_view(),
        dto.retention_policy.deep_view() == r.retention_policy.deep_view(),
        dto.retired_reason.deep_view() == r.retired_reason.deep_view(),
        dto.supersedes_id.deep_view() == r.supersedes_id.deep_view(),
        dto.superseded_by_id.deep_view() == r.superseded_by_id.deep_view(),
        dto.text_payload.deep_view() == r.text_payload.deep_view(),
        (dto.binary_payload is Some) == (r.binary_payload is Some),
        r.binary_payload is Some ==> dto.binary_payload->0@ == r.binary_payload->0@,
        (dto.embedding is Some) == (r.embedding is Some),
        r.embedding is Some ==> dto.embedding->0@ == r.embedding->0@,
        (dto.state_metadata is Some) == (r.state_metadata is Some),
        r.state_metadata is Some ==> {
            &&& dto.state_metadata->0.step == r.state_metadata->0.step
            &&& dto.state_metadata->0.active_plan_id.deep_view()
                == r.state_metadata->0.active_plan_id.deep_view()
            &&& dto.state_metadata->0.tokens_used == r.state_metadata->0.tokens_used
            &&& dto.state_metadata->0.custom.deep_view()
                == r.state_metadata->0.custom.deep_view()
        },
        dto.relationships.len() == r.relationships.len(),
        forall|k: int|
            #![trigger dto.relationships[k]]
            0 <= k < r.relationships.len() ==> {
                &&& dto.relationships[k].target_id@ == r.relationships[k].target_id@
                &&& dto.relationships[k].relation@ == r.relationships[k].relation@
                &&& dto.relationships[k].weight == r.relationships[k].weight
            },
{
    assert(model::opt_view(dto.external_id) == model::opt_view(r.external_id));
    assert(model::opt_view(dto.bot_id) == model::opt_view(r.bot_id));
    assert(model::opt_view(dto.session_id) == model::opt_view(r.session_id));
    assert(model::opt_view(dto.tenant) == model::opt_view(r.tenant));
    assert(model::opt_view(dto.source) == model::opt_view(r.source));
    assert(model::opt_view(dto.retention_policy) == model::opt_view(r.retention_policy));
    assert(model::opt_view(dto.retired_reason) == model::opt_view(r.retired_reason));
    assert(model::opt_view(dto.supersedes_id) == model::opt_view(r.supersedes_id));
    assert(model::opt_view(dto.superseded_by_id) == model::opt_view(r.superseded_by_id));
    assert(model::opt_view(dto.text_payload) == model::opt_view(r.text_payload));
    assert(model::opt_view(dto.binary_payload) == model::opt_view(r.binary_payload));
    assert(model::opt_view(dto.embedding) == model::opt_view(r.embedding));
    assert(model::opt_view(dto.state_metadata) == model::opt_view(r.state_metadata));
    assert(model::seq_view(dto.relationships@) == model::seq_view(r.relationships@));
    assert(dto.relationships.len() == model::seq_view(dto.relationships@).len());
    assert(r.relationships.len() == model::seq_view(r.relationships@).len());
    assert forall|k: int| #![trigger dto.relationships[k]] 0 <= k
        < r.relationships.len() implies dto.relationships[k]@ == r.relationships[k]@ by {
        assert(model::seq_view(dto.relationships@)[k] == dto.relationships[k]@);
        assert(model::seq_view(r.relationships@)[k] == r.relationships[k]@);
    }
}

/// Records that are listed are those of the store: all of them, each at its place.
pub proof fn listed_records_are_the_stored_ones(records: Seq<ContextRecord>, dtos: Seq<RecordDto>)
    requires
        model::seq_view(dtos) == model::seq_view(records),
    ensures
        dtos.len() == records.len(),
        forall|i: int| 0 <= i < records.len() ==> #[trigger] dtos[i]@ == records[i]@,
{
    assert(dtos.len() == model::seq_view(dtos).len());
    assert(records.len() == model::seq_view(records).len());
    assert forall|i: int| 0 <= i < records.len() implies #[trigger] dtos[i]@ == records[i]@ by {
        assert(model::seq_view(dtos)[i] == dtos[i]@);
        assert(model::seq_view(records)[i] == records[i]@);
    }
}

/// A read shows a record exactly if the store has it, and shows that one.
pub proof fn read_record_is_the_stored_one(
    record: Option<ContextRecord>,
    response: GetRecordResponse,
)
    requires
        model::opt_view(response.record) == model::opt_view(record),
    ensures
        (response.record is Some) == (record is Some),
        record is Some ==> response.record->0@ == record->0@,
{
}

/// A patch in the store's form has every field of the one that a request carries.
pub proof fn stored_patch_is_the_requested_one(patch: RecordPatchDto, core: RecordPatch)
    requires
        core@ == patch@,
    ensures
        core.bot_id.deep_view() == patch.bot_id.deep_view(),
        core.session_id.deep_view() == patch.session_id.deep_view(),
        core.tenant.deep_view() == patch.tenant.deep_view(),
        core.source.deep_view() == patch.source.deep_view(),
        core.retention_policy.deep_view() == patch.retention_policy.deep_view(),
        core.retired_reason.deep_view() == patch.retired_reason.deep_view(),
        core.metadata == patch.metadata,
        core.expires_at == patch.expires_at,
        core.retired_at == patch.retired_at,
        (core.embedding is Some) == (patch.embedding is Some),
        patch.embedding is Some ==> core.embedding->0@ == patch.embedding->0@,
        (core.state_metadata is Some) == (patch.state_metadata is Some),
        patch.state_metadata is Some ==> {
            &&& core.state_metadata->0.step == patch.state_metadata->0.step
            &&& core.state_metadata->0.active_plan_id.deep_view()
                == patch.state_metadata->0.active_plan_id.deep_view()
            &&& core.state_metadata->0.tokens_used == patch.state_metadata->0.tokens_used
            &&& core.state_metadata->0.custom.deep_view()
                == patch.state_metadata->0.custom.deep_view()
        },
        (core.lifecycle_status is Some) == (patch.lifecycle_status is Some),
        patch.lifecycle_status is Some ==> {
            &&& (core.lifecycle_status->0 is Some) == (patch.lifecycle_status->0 is Some)
            &&& patch.lifecycle_status->0 is Some ==> match patch.lifecycle_status->0->0 {
                LifecycleStatus::Active => core.lifecycle_status->0->0 is Active,
                LifecycleStatus::Contradicted => core.lifecycle_status->0->0 is Contradicted,
                LifecycleStatus::Other(named) => {
                    &&& core.lifecycle_status->0->0 is Other
                    &&& core.lifecycle_status->0->0->Other_0@ == named@
                },
            }
        },
        (core.relationships is Some) == (patch.relationships is Some),
        patch.relationships is Some ==> core.relationships->0.len()
            == patch.relationships->0.len(),
        patch.relationships is Some ==> forall|k: int|
            #![trigger core.relationships->0[k]]
            0 <= k < patch.relationships->0.len() ==> {
                &&& core.relationships->0[k].target_id@ == patch.relationships->0[k].target_id@
                &&& core.relationships->0[k].relation@ == patch.relationships->0[k].relation@
                &&& core.relationships->0[k].weight == patch.relationships->0[k].weight
            },
{
    assert(model::opt_view(core.bot_id) == model::opt_view(patch.bot_id));
    assert(model::opt_view(core.session_id) == model::opt_view(patch.session_id));
    assert(model::opt_view(core.tenant) == model::opt_view(patch.tenant));
    assert(model::opt_view(core.source) == model::opt_view(patch.source));
    assert(model::opt_view(core.retention_policy) == model::opt_view(patch.retention_policy));
    assert(model::opt_view(core.retired_reason) == model::opt_view(patch.retired_reason));
    assert(model::opt_view(core.embedding) == model::opt_view(patch.embedding));
    assert(model::opt_view(core.state_metadata) == model::opt_view(patch.state_metadata));
    assert(model::status_view(core.lifecycle_status) == model::status_view(patch.lifecycle_status));
    assert(model::opt_seq_view(core.relationships) == model::opt_seq_view(patch.relationships));
    if patch.relationships is Some {
        let stored = core.relationships->0;
        let asked = patch.relationships->0;
        assert(model::seq_view(stored@) == model::seq_view(asked@));
        assert(stored.len() == model::seq_view(stored@).len());
        assert(asked.len() == model::seq_view(asked@).len());
        assert forall|k: int|
            #![trigger core.relationships->0[k]]
            0 <= k < asked.len() implies stored[k]@ == asked[k]@ by {
            assert(model::seq_view(stored@)[k] == stored[k]@);
            assert(model::seq_view(asked@)[k] == asked[k]@);
        }
    }
}

/// A patch is empty exactly if it has none of its fields.
pub proof fn patch_is_empty_exactly_without_fields(patch: RecordPatchDto)
    ensures
        patch@ == PatchView::empty() <==> {
            &&& patch.bot_id is None
            &&& patch.session_id is None
            &&& patch.tenant is None
            &&& patch.source is None
            &&& patch.state_metadata is None
            &&& patch.metadata is None
            &&& patch.relationships is None
            &&& patch.expires_at is None
            &&& patch.retention_policy is None
            &&& patch.lifecycle_status is None
            &&& patch.retired_at is None
            &&& patch.retired_reason is None
            &&& patch.embedding is None
        },
{
}

// What goes to the store

/// A record that is made for a request has its identifier, its run and its time, and every
/// field of the request; and it is active, neither retired nor superseded.
pub proof fn made_record_is_the_requested_one(
    request: AddRecordRequest,
    id: Seq<char>,
    run_id: Seq<char>,
    created_at: Timestamp,
    record: ContextRecord,
)
    requires
        record@ == convert::new_record(request@, id, run_id, created_at),
    ensures
        record.id@ == id,
        record.run_id@ == run_id,
        record.created_at == created_at,
        record.role@ == request.role@,
        record.content_type@ == request.content_type@,
        record.metadata == request.metadata,
        record.expires_at == request.expires_at,
        record.external_id.deep_view() == request.external_id.deep_view(),
        record.bot_id.deep_view() == request.bot_id.deep_view(),
        record.session_id.deep_view() == request.session_id.deep_view(),
        record.tenant.deep_view() == request.tenant.deep_view(),
        record.source.deep_view() == request.source.deep_view(),
        record.retention_policy.deep_view() == request.retention_policy.deep_view(),
        record.supersedes_id.deep_view() == request.supersedes_id.deep_view(),
        record.text_payload.deep_view() == request.text_payload.deep_view(),
        (record.binary_payload is Some) == (request.binary_payload is Some),
        request.binary_payload is Some ==> record.binary_payload->0@ == request.binary_payload->0@,
        (record.embedding is Some) == (request.embedding is Some),
        request.embedding is Some ==> record.embedding->0@ == request.embedding->0@,
        (record.state_metadata is Some) == (request.state_metadata is Some),
        request.state_metadata is Some ==> {
            &&& record.state_metadata->0.step == request.state_metadata->0.step
            &&& record.state_metadata->0.active_plan_id.deep_view()
                == request.state_metadata->0.active_plan_id.deep_view()
            &&& record.state_metadata->0.tokens_used == request.state_metadata->0.tokens_used
            &&& record.state_metadata->0.custom.deep_view()
                == request.state_metadata->0.custom.deep_view()
        },
        record.relationships.len() == request.relationships.len(),
        forall|k: int|
            #![trigger record.relationships[k]]
            0 <= k < request.relationships.len() ==> {
                &&& record.relationships[k].target_id@ == request.relationships[k].target_id@
                &&& record.relationships[k].relation@ == request.relationships[k].relation@
                &&& record.relationships[k].weight == request.relationships[k].weight
            },
        record.lifecycle_status@ == "active"@,
        record.retired_at is None,
        record.retired_reason is None,
        record.superseded_by_id is None,
{
    assert(model::opt_view(record.external_id) == model::opt_view(request.external_id));
    assert(model::opt_view(record.bot_id) == model::opt_view(request.bot_id));
    assert(model::opt_view(record.session_id) == model::opt_view(request.session_id));
    assert(model::opt_view(record.tenant) == model::opt_view(request.tenant));
    assert(model::opt_view(record.source) == model::opt_view(request.source));
    assert(model::opt_view(record.retention_policy) == model::opt_view(request.retention_policy));
    assert(model::opt_view(record.supersedes_id) == model::opt_view(request.supersedes_id));
    assert(model::opt_view(record.text_payload) == model::opt_view(request.text_payload));
    assert(model::opt_view(record.binary_payload) == model::opt_view(request.binary_payload));
    assert(model::opt_view(record.embedding) == model::opt_view(request.embedding));
    assert(model::opt_view(record.state_metadata) == model::opt_view(request.state_metadata));
    assert(model::opt_view(record.retired_reason) is None);
    assert(model::opt_view(record.superseded_by_id) is None);
    assert(model::seq_view(record.relationships@) == model::seq_view(request.relationships@));
    assert(record.relationships.len() == model::seq_view(record.relationships@).len());
    assert(request.relationships.len() == model::seq_view(request.relationships@).len());
    assert forall|k: int| #![trigger record.relationships[k]] 0 <= k
        < request.relationships.len() implies record.relationships[k]@ == request.relationships[k]@ by {
        assert(model::seq_view(record.relationships@)[k] == record.relationships[k]@);
        assert(model::seq_view(request.relationships@)[k] == request.relationships[k]@);
    }
}

/// An addition writes for each request, at its place, a record with every field of the
/// request. The record has the identifier that was drawn for it, and the run that was drawn
/// for all.
pub proof fn added_record_is_the_requested_one<S>(
    requests: Seq<AddRecordRequest>,
    drawn: Seq<Seq<char>>,
    call: AddRecordsCall<S>,
    i: int,
)
    requires
        call.writes(requests, drawn),
        0 <= i < requests.len(),
    ensures
        call.records.len() == requests.len(),
        call.ids.len() == requests.len(),
        drawn.len() == requests.len() + 1,
        call.records[i].run_id@ == drawn[0],
        call.records[i].id@ == drawn[i + 1],
        call.ids[i]@ == drawn[i + 1],
        call.records[i].role@ == requests[i].role@,
        call.records[i].content_type@ == requests[i].content_type@,
        call.records[i].metadata == requests[i].metadata,
        call.records[i].expires_at == requests[i].expires_at,
        call.records[i].external_id.deep_view() == requests[i].external_id.deep_view(),
        call.records[i].bot_id.deep_view() == requests[i].bot_id.deep_view(),
        call.records[i].session_id.deep_view() == requests[i].session_id.deep_view(),
        call.records[i].tenant.deep_view() == requests[i].tenant.deep_view(),
        call.records[i].source.deep_view() == requests[i].source.deep_view(),
        call.records[i].retention_policy.deep_view() == requests[i].retention_policy.deep_view(),
        call.records[i].supersedes_id.deep_view() == requests[i].supersedes_id.deep_view(),
        call.records[i].text_payload.deep_view() == requests[i].text_payload.deep_view(),
        (call.records[i].binary_payload is Some) == (requests[i].binary_payload is Some),
        requests[i].binary_payload is Some ==> call.records[i].binary_payload->0@ == requests[i].binary_payload->0@,
        (call.records[i].embedding is Some) == (requests[i].embedding is Some),
        requests[i].embedding is Some ==> call.records[i].embedding->0@ == requests[i].embedding->0@,
        (call.records[i].state_metadata is Some) == (requests[i].state_metadata is Some),
        requests[i].state_metadata is Some ==> {
            &&& call.records[i].state_metadata->0.step == requests[i].state_metadata->0.step
            &&& call.records[i].state_metadata->0.active_plan_id.deep_view()
                == requests[i].state_metadata->0.active_plan_id.deep_view()
            &&& call.records[i].state_metadata->0.tokens_used == requests[i].state_metadata->0.tokens_used
            &&& call.records[i].state_metadata->0.custom.deep_view()
                == requests[i].state_metadata->0.custom.deep_view()
        },
        call.records[i].relationships.len() == requests[i].relationships.len(),
        forall|k: int|
            #![trigger call.records[i].relationships[k]]
            0 <= k < requests[i].relationships.len() ==> {
                &&& call.records[i].relationships[k].target_id@ == requests[i].relationships[k].target_id@
                &&& call.records[i].relationships[k].relation@ == requests[i].relationships[k].relation@
                &&& call.records[i].relationships[k].weight == requests[i].relationships[k].weight
            },
        call.records[i].lifecycle_status@ == "active"@,
        call.records[i].retired_at is None,
        call.records[i].retired_reason is None,
        call.records[i].superseded_by_id is None,
{
    let record = call.records[i];
    assert(model::seq_view(call.ids@).len() == call.ids.len());
    assert(model::seq_view(call.ids@)[i] == call.ids[i]@);
    made_record_is_the_requested_one(
        requests[i],
        call.ids[i]@,
        drawn[0],
        record.created_at,
        record,
    );
}

/// An addition reads the clock once for each record, and the record at a place was made at
/// the time that was read for that place.
pub proof fn added_records_are_made_when_the_clock_is_read(
    before: Seq<Timestamp>,
    records: Seq<ContextRecord>,
    after: Seq<Timestamp>,
)
    requires
        after == before + convert::creation_times(records),
    ensures
        convert::creation_times(records).len() == records.len(),
        after.len() == before.len() + records.len(),
        forall|i: int| 0 <= i < before.len() ==> #[trigger] after[i] == before[i],
        forall|i: int|
            0 <= i < records.len() ==> #[trigger] records[i].created_at == after[before.len() + i],
{
    assert forall|i: int| 0 <= i < records.len() implies #[trigger] records[i].created_at
        == after[before.len() + i] by {
        assert(convert::creation_times(records)[i] == records[i].created_at);
    }
}

/// An upsert writes a record with every field of the request, and with the identifier and
/// the run that were drawn for it.
pub proof fn upserted_record_is_the_requested_one<S>(
    request: AddRecordRequest,
    id: Seq<char>,
    run_id: Seq<char>,
    call: UpsertRecordCall<S>,
)
    requires
        call.writes(request, id, run_id),
    ensures
        call.record.id@ == id,
        call.record.run_id@ == run_id,
        call.record.role@ == request.role@,
        call.record.content_type@ == request.content_type@,
        call.record.metadata == request.metadata,
        call.record.expires_at == request.expires_at,
        call.record.external_id.deep_view() == request.external_id.deep_view(),
        call.record.bot_id.deep_view() == request.bot_id.deep_view(),
        call.record.session_id.deep_view() == request.session_id.deep_view(),
        call.record.tenant.deep_view() == request.tenant.deep_view(),
        call.record.source.deep_view() == request.source.deep_view(),
        call.record.retention_policy.deep_view() == request.retention_policy.deep_view(),
        call.record.supersedes_id.deep_view() == request.supersedes_id.deep_view(),
        call.record.text_payload.deep_view() == request.text_payload.deep_view(),
        (call.record.binary_payload is Some) == (request.binary_payload is Some),
        request.binary_payload is Some ==> call.record.binary_payload->0@ == request.binary_payload->0@,
        (call.record.embedding is Some) == (request.embedding is Some),
        request.embedding is Some ==> call.record.embedding->0@ == request.embedding->0@,
        (call.record.state_metadata is Some) == (request.state_metadata is Some),
        request.state_metadata is Some ==> {
            &&& call.record.state_metadata->0.step == request.state_metadata->0.step
            &&& call.record.state_metadata->0.active_plan_id.deep_view()
                == request.state_metadata->0.active_plan_id.deep_view()
            &&& call.record.state_metadata->0.tokens_used == request.state_metadata->0.tokens_used
            &&& call.record.state_metadata->0.custom.deep_view()
                == request.state_metadata->0.custom.deep_view()
        },
        call.record.relationships.len() == request.relationships.len(),
        forall|k: int|
            #![trigger call.record.relationships[k]]
            0 <= k < request.relationships.len() ==> {
                &&& call.record.relationships[k].target_id@ == request.relationships[k].target_id@
                &&& call.record.relationships[k].relation@ == request.relationships[k].relation@
                &&& call.record.relationships[k].weight == request.relationships[k].weight
            },
        call.record.lifecycle_status@ == "active"@,
        call.record.retired_at is None,
        call.record.retired_reason is None,
        call.record.superseded_by_id is None,
{
    made_record_is_the_requested_one(request, id, run_id, call.record.created_at, call.record);
}

/// An update goes to the record that the request names, in the way that it names it, and
/// with every field of its patch.
pub proof fn update_applies_the_requested_patch<S>(
    request: UpdateRecordRequest,
    call: UpdateRecordCall<S>,
)
    requires
        call.applies(request),
    ensures
        (request.id is Some) != (request.external_id is Some),
        request.id is Some ==> call.key is Id && call.key->Id_0@ == request.id->0@,
        request.external_id is Some ==> call.key is ExternalId && call.key->ExternalId_0@
            == request.external_id->0@,
        call.patch.bot_id.deep_view() == request.patch.bot_id.deep_view(),
        call.patch.session_id.deep_view() == request.patch.session_id.deep_view(),
        call.patch.tenant.deep_view() == request.patch.tenant.deep_view(),
        call.patch.source.deep_view() == request.patch.source.deep_view(),
        call.patch.retention_policy.deep_view() == request.patch.retention_policy.deep_view(),
        call.patch.retired_reason.deep_view() == request.patch.retired_reason.deep_view(),
        call.patch.metadata == request.patch.metadata,
        call.patch.expires_at == request.patch.expires_at,
        call.patch.retired_at == request.patch.retired_at,
        (call.patch.embedding is Some) == (request.patch.embedding is Some),
        request.patch.embedding is Some ==> call.patch.embedding->0@ == request.patch.embedding->0@,
        (call.patch.state_metadata is Some) == (request.patch.state_metadata is Some),
        request.patch.state_metadata is Some ==> {
            &&& call.patch.state_metadata->0.step == request.patch.state_metadata->0.step
            &&& call.patch.state_metadata->0.active_plan_id.deep_view()
                == request.patch.state_metadata->0.active_plan_id.deep_view()
            &&& call.patch.state_metadata->0.tokens_used == request.patch.state_metadata->0.tokens_used
            &&& call.patch.state_metadata->0.custom.deep_view()
                == request.patch.state_metadata->0.custom.deep_view()
        },
        (call.patch.lifecycle_status is Some) == (request.patch.lifecycle_status is Some),
        request.patch.lifecycle_status is Some ==> {
            &&& (call.patch.lifecycle_status->0 is Some) == (request.patch.lifecycle_status->0 is Some)
            &&& request.patch.lifecycle_status->0 is Some ==> match request.patch.lifecycle_status->0->0 {
                LifecycleStatus::Active => call.patch.lifecycle_status->0->0 is Active,
                LifecycleStatus::Contradicted => call.patch.lifecycle_status->0->0 is Contradicted,
                LifecycleStatus::Other(named) => {
                    &&& call.patch.lifecycle_status->0->0 is Other
                    &&& call.patch.lifecycle_status->0->0->Other_0@ == named@
                },
            }
        },
        (call.patch.relationships is Some) == (request.patch.relationships is Some),
        request.patch.relationships is Some ==> call.patch.relationships->0.len()
            == request.patch.relationships->0.len(),
        request.patch.relationships is Some ==> forall|k: int|
            #![trigger call.patch.relationships->0[k]]
            0 <= k < request.patch.relationships->0.len() ==> {
                &&& call.patch.relationships->0[k].target_id@ == request.patch.relationships->0[k].target_id@
                &&& call.patch.relationships->0[k].relation@ == request.patch.relationships->0[k].relation@
                &&& call.patch.relationships->0[k].weight == request.patch.relationships->0[k].weight
            },
{
    stored_patch_is_the_requested_one(request.patch, call.patch);
}

/// A list asks the store for what its parameters say, each of them whatever the others are,
/// and with the filters that were made of its own.
pub proof fn list_asks_what_its_parameters_say<S, F>(
    store: Option<S>,
    name: Seq<char>,
    params: ListParams,
    filters: Result<Option<F>, String>,
    call: Result<ListRecordsCall<S, F>, AppError>,
)
    requires
        records::list_outcome(store, name, params, filters, call),
    ensures
        call is Ok <==> store is Some && filters is Ok,
        call is Ok ==> call->Ok_0.store == store->0,
        call is Ok ==> call->Ok_0.limit == params.limit,
        call is Ok ==> call->Ok_0.offset == params.offset,
        call is Ok ==> call->Ok_0.filters == filters->Ok_0,
        call is Ok ==> call->Ok_0.options.include_expired == params.include_expired,
        call is Ok ==> call->Ok_0.options.include_retired == params.include_retired,
        filters is Err ==> (call matches Err(AppError::InvalidRequest(message)) && message@
            == filters->Err_0@),
        filters is Ok && store is None ==> (call matches Err(AppError::NotFound(message))
            && message@ == "Context '"@ + name + "' does not exist"@),
{
}

// What is refused

/// A read, a deletion or a list of related records is carried out exactly if its context
/// exists, whatever the context is called.
pub proof fn lookup_accepted(found: bool, name: Seq<char>)
    ensures
        records::lookup_refusal(found, name) is None <==> found,
{
}

/// A list is carried out exactly if its context exists and its filters are in order.
pub proof fn list_accepted<F>(found: bool, name: Seq<char>, filters: Result<Option<F>, String>)
    ensures
        records::list_refusal(found, name, filters) is None <==> found && filters is Ok,
{
}

/// Whether a request is refused does not depend on what its context is called, and where
/// the context exists, neither does the answer.
pub proof fn names_decide_nothing<F>(
    found: bool,
    name: Seq<char>,
    other: Seq<char>,
    requests: Seq<AddRecordRequest>,
    key: Seq<char>,
    upserted_id: Option<Seq<char>>,
    id: Option<String>,
    external_id: Option<String>,
    patch: PatchView,
    filters: Result<Option<F>, String>,
)
    ensures
        (records::lookup_refusal(found, name) is None) == (records::lookup_refusal(
            found,
            other,
        ) is None),
        (records::add_refusal(found, name, requests) is None) == (records::add_refusal(
            found,
            other,
            requests,
        ) is None),
        (records::upsert_refusal(found, name, key, upserted_id) is None) == (
        records::upsert_refusal(found, other, key, upserted_id) is None),
        (records::update_refusal(found, name, id, external_id, patch) is None) == (
        records::update_refusal(found, other, id, external_id, patch) is None),
        (records::list_refusal(found, name, filters) is None) == (records::list_refusal(
            found,
            other,
            filters,
        ) is None),
        found ==> records::add_refusal(found, name, requests) == records::add_refusal(
            found,
            other,
            requests,
        ),
        found ==> records::upsert_refusal(found, name, key, upserted_id)
            == records::upsert_refusal(found, other, key, upserted_id),
        found ==> records::update_refusal(found, name, id, external_id, patch)
            == records::update_refusal(found, other, id, external_id, patch),
        found ==> records::list_refusal(found, name, filters) == records::list_refusal(
            found,
            other,
            filters,
        ),
{
}

/// A request for a context that there is none of is told the name that it gave.
pub proof fn missing_context_is_named(name: Seq<char>, error: AppError)
    requires
        error@ == error::context_missing(name),
    ensures
        error is NotFound,
        error->NotFound_0@ == "Context '"@ + name + "' does not exist"@,
{
}

/// Filters that are not JSON are answered with the reason.
pub proof fn filters_that_are_not_json_are_told_why(reason: Seq<char>, error: AppError)
    requires
        error@ == records::filters_not_json(reason),
    ensures
        error is InvalidRequest,
        error->InvalidRequest_0@ == "invalid filters JSON: "@ + reason,
{
}

/// Each fault of an addition, an upsert or an update has its own answer.
pub proof fn faults_are_told_apart(
    found: bool,
    name: Seq<char>,
    key: Seq<char>,
    upserted_id: Option<Seq<char>>,
    id: Option<String>,
    external_id: Option<String>,
    patch: PatchView,
)
    ensures
        records::add_refusal(found, name, Seq::empty()) == Some(
            AppErrorView::InvalidRequest("records array must not be empty"@),
        ),
        key != "external_id"@ ==> records::upsert_refusal(found, name, key, upserted_id) == Some(
            AppErrorView::InvalidRequest(
                "upsert key '"@ + key + "' is not supported; use 'external_id'"@,
            ),
        ),
        upserted_id is None || upserted_id->0.len() == 0 ==> records::upsert_refusal(
            found,
            name,
            "external_id"@,
            upserted_id,
        ) == Some(AppErrorView::InvalidRequest("upsert requires record.external_id"@)),
        records::update_refusal(found, name, id, external_id, PatchView::empty()) == Some(
            AppErrorView::InvalidRequest("update requires at least one patch field"@),
        ),
        patch != PatchView::empty() && id is None && external_id is None
            ==> records::update_refusal(true, name, id, external_id, patch) == Some(
            AppErrorView::InvalidRequest("update requires either id or external_id"@),
        ),
        patch != PatchView::empty() && id is Some && external_id is Some
            ==> records::update_refusal(true, name, id, external_id, patch) == Some(
            AppErrorView::InvalidRequest("update accepts only one of id or external_id"@),
        ),
{
}

// What comes from outside

/// What a source shows is what was drawn, whole and unchanged.
pub proof fn source_shows_its_draws(source: IdSource)
    ensures
        source@ == source.drawn@,
{
}

/// What a clock shows is what was read, unchanged.
pub proof fn clock_shows_its_readings(clock: Clock)
    ensures
        clock@ == clock.readings@,
{
}

/// The text of a random UUID has hyphens where they belong and lower-case hexadecimal digits
/// elsewhere, with the digits of its version and variant among them.
pub proof fn uuid_has_its_form(text: Seq<char>)
    requires
        ids::is_uuid_v4(text),
    ensures
        text.len() == 36,
        text[8] == '-' && text[13] == '-' && text[18] == '-' && text[23] == '-',
        text[14] == '4',
        text[19] == '8' || text[19] == '9' || text[19] == 'a' || text[19] == 'b',
        forall|i: int|
            0 <= i < 36 && i != 8 && i != 13 && i != 18 && i != 23 ==> {
                ||| '0' <= #[trigger] text[i] && text[i] <= '9'
                ||| 'a' <= text[i] && text[i] <= 'f'
            },
{
}

} // verus!
