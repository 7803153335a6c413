//! From what requests carry to what the store holds, and back.

use vstd::prelude::*;

use crate::api::{
    AddRecordRequest, AddRecordView, RecordDto, RecordPatchDto, RelationshipDto, StateMetadataDto,
};
use crate::clock::{Clock, Timestamp};
use crate::model;
use crate::model::{
    ContextRecord, LifecycleStatus, RecordPatch, RecordView, Relationship, StateMetadata,
    LIFECYCLE_ACTIVE,
};

verus! {

/// The record that `request` asks for: what the request says of it, and of the rest
/// that it is in use, neither retired nor superseded.
pub open spec fn new_record(
    request: AddRecordView,
    id: Seq<char>,
    run_id: Seq<char>,
    created_at: Timestamp,
) -> RecordView {
    RecordView {
        id,
        external_id: request.external_id,
        run_id,
        bot_id: request.bot_id,
        session_id: request.session_id,
        tenant: request.tenant,
        source: request.source,
        created_at,
        role: request.role,
        state_metadata: request.state_metadata,
        metadata: request.metadata,
        relationships: request.relationships,
        expires_at: request.expires_at,
        retention_policy: request.retention_policy,
        lifecycle_status: LIFECYCLE_ACTIVE@,
        retired_at: None,
        retired_reason: None,
        supersedes_id: request.supersedes_id,
        superseded_by_id: None,
        content_type: request.content_type,
        text_payload: request.text_payload,
        binary_payload: request.binary_payload,
        embedding: request.embedding,
    }
}

/// Shows a record of the store.
pub fn record_to_dto(r: ContextRecord) -> (dto: RecordDto)
    ensures
        dto@ == r@,
        dto.id == r.id,
        dto.external_id == r.external_id,
        dto.run_id == r.run_id,
        dto.bot_id == r.bot_id,
        dto.session_id == r.session_id,
        dto.tenant == r.tenant,
        dto.source == r.source,
        dto.created_at == r.created_at,
        dto.role == r.role,
        dto.content_type == r.content_type,
        dto.text_payload == r.text_payload,
        dto.binary_payload == r.binary_payload,
        dto.embedding == r.embedding,
        dto.metadata == r.metadata,
        dto.expires_at == r.expires_at,
        dto.retention_policy == r.retention_policy,
        dto.lifecycle_status == r.lifecycle_status,
        dto.retired_at == r.retired_at,
        dto.retired_reason == r.retired_reason,
        dto.supersedes_id == r.supersedes_id,
        dto.superseded_by_id == r.superseded_by_id,
        (dto.state_metadata is Some) == (r.state_metadata is Some),
        r.state_metadata is Some ==> {
            &&& dto.state_metadata->0.step == r.state_metadata->0.step
            &&& dto.state_metadata->0.active_plan_id == r.state_metadata->0.active_plan_id
            &&& dto.state_metadata->0.tokens_used == r.state_metadata->0.tokens_used
            &&& dto.state_metadata->0.custom == r.state_metadata->0.custom
        },
        dto.relationships.len() == r.relationships.len(),
        forall|i: int|
            #![trigger dto.relationships[i]]
            0 <= i < r.relationships.len() ==> {
                &&& dto.relationships[i].target_id == r.relationships[i].target_id
                &&& dto.relationships[i].relation == r.relationships[i].relation
                &&& dto.relationships[i].weight == r.relationships[i].weight
            },
{
    RecordDto {
        id: r.id,
        external_id: r.external_id,
        run_id: r.run_id,
        bot_id: r.bot_id,
        session_id: r.session_id,
        tenant: r.tenant,
        source: r.source,
        created_at: r.created_at,
        role: r.role,
        content_type: r.content_type,
        text_payload: r.text_payload,
        binary_payload: r.binary_payload,
        embedding: r.embedding,
        state_metadata: match r.state_metadata {
            Some(sm) => Some(
                StateMetadataDto {
                    step: sm.step,
                    active_plan_id: sm.active_plan_id,
                    tokens_used: sm.tokens_used,
                    custom: sm.custom,
                },
            ),
            None => None,
        },
        metadata: r.metadata,
        relationships: relationships_to_dto(r.relationships),
        expires_at: r.expires_at,
        retention_policy: r.retention_policy,
        lifecycle_status: r.lifecycle_status,
        retired_at: r.retired_at,
        retired_reason: r.retired_reason,
        supersedes_id: r.supersedes_id,
        superseded_by_id: r.superseded_by_id,
    }
}

/// Shows records of the store, in their order.
pub fn records_to_dto(records: Vec<ContextRecord>) -> (dtos: Vec<RecordDto>)
    ensures
        model::seq_view(dtos@) == model::seq_view(records@),
        dtos.len() == records.len(),
        forall|i: int| 0 <= i < records.len() ==> #[trigger] dtos[i]@ == records[i]@,
{
    let mut dtos: Vec<RecordDto> = Vec::with_capacity(records.len());
    for r in iter: records.into_iter()
        invariant
            iter.seq() == records@,
            dtos.len() == iter.index(),
            forall|i: int| 0 <= i < dtos.len() ==> #[trigger] dtos[i]@ == records[i]@,
    {
        dtos.push(record_to_dto(r));
    }
    dtos
}

/// The store's form of a relationship.
pub fn dto_to_relationship(r: RelationshipDto) -> (relationship: Relationship)
    ensures
        relationship@ == r@,
        relationship.target_id == r.target_id,
        relationship.relation == r.relation,
        relationship.weight == r.weight,
{
    Relationship { target_id: r.target_id, relation: r.relation, weight: r.weight }
}

/// Shows a relationship of the store.
pub fn relationship_to_dto(r: Relationship) -> (dto: RelationshipDto)
    ensures
        dto@ == r@,
        dto.target_id == r.target_id,
        dto.relation == r.relation,
        dto.weight == r.weight,
{
    RelationshipDto { target_id: r.target_id, relation: r.relation, weight: r.weight }
}

fn relationships_to_dto(relationships: Vec<Relationship>) -> (dtos: Vec<RelationshipDto>)
    ensures
        model::seq_view(dtos@) == model::seq_view(relationships@),
        dtos.len() == relationships.len(),
        forall|i: int|
            #![trigger dtos[i]]
            0 <= i < relationships.len() ==> {
                &&& dtos[i].target_id == relationships[i].target_id
                &&& dtos[i].relation == relationships[i].relation
                &&& dtos[i].weight == relationships[i].weight
            },
{
    let mut dtos: Vec<RelationshipDto> = Vec::with_capacity(relationships.len());
    for r in iter: relationships.into_iter()
        invariant
            iter.seq() == relationships@,
            dtos.len() == iter.index(),
            forall|i: int| 0 <= i < dtos.len() ==> #[trigger] dtos[i]@ == relationships[i]@,
            forall|i: int|
                #![trigger dtos[i]]
                0 <= i < dtos.len() ==> {
                    &&& dtos[i].target_id == relationships[i].target_id
                    &&& dtos[i].relation == relationships[i].relation
                    &&& dtos[i].weight == relationships[i].weight
                },
    {
        dtos.push(relationship_to_dto(r));
    }
    dtos
}

fn relationships_from_dto(dtos: &Vec<RelationshipDto>) -> (relationships: Vec<Relationship>)
    ensures
        model::seq_view(relationships@) == model::seq_view(dtos@),
        relationships.len() == dtos.len(),
        forall|i: int|
            #![trigger relationships[i]]
            0 <= i < dtos.len() ==> {
                &&& relationships[i].target_id == dtos[i].target_id
                &&& relationships[i].relation == dtos[i].relation
                &&& relationships[i].weight == dtos[i].weight
            },
{
    let mut relationships: Vec<Relationship> = Vec::with_capacity(dtos.len());
    for i in 0..dtos.len()
        invariant
            relationships.len() == i,
            forall|j: int| 0 <= j < i ==> #[trigger] relationships[j]@ == dtos[j]@,
            forall|j: int|
                #![trigger relationships[j]]
                0 <= j < i ==> {
                    &&& relationships[j].target_id == dtos[j].target_id
                    &&& relationships[j].relation == dtos[j].relation
                    &&& relationships[j].weight == dtos[j].weight
                },
    {
        let dto = &dtos[i];
        relationships.push(
            dto_to_relationship(
                RelationshipDto {
                    target_id: dto.target_id.clone(),
                    relation: dto.relation.clone(),
                    weight: dto.weight,
                },
            ),
        );
    }
    relationships
}

fn state_metadata_from_dto(dto: &Option<StateMetadataDto>) -> (metadata: Option<StateMetadata>)
    ensures
        model::opt_view(metadata) == model::opt_view(*dto),
        (metadata is Some) == (*dto is Some),
        *dto is Some ==> {
            &&& metadata->0.step == dto->0.step
            &&& metadata->0.active_plan_id == dto->0.active_plan_id
            &&& metadata->0.tokens_used == dto->0.tokens_used
            &&& metadata->0.custom == dto->0.custom
        },
{
    match dto {
        Some(sm) => Some(
            StateMetadata {
                step: sm.step,
                active_plan_id: sm.active_plan_id.clone(),
                tokens_used: sm.tokens_used,
                custom: sm.custom.clone(),
            },
        ),
        None => None,
    }
}

fn copy_status(status: &Option<Option<LifecycleStatus>>) -> (copy: Option<Option<LifecycleStatus>>)
    ensures
        copy == *status,
{
    match status {
        Some(Some(LifecycleStatus::Active)) => Some(Some(LifecycleStatus::Active)),
        Some(Some(LifecycleStatus::Contradicted)) => Some(Some(LifecycleStatus::Contradicted)),
        Some(Some(LifecycleStatus::Other(name))) => Some(Some(LifecycleStatus::Other(name.clone()))),
        Some(None) => Some(None),
        None => None,
    }
}

/// The store's form of a patch.
pub fn patch_from_dto(patch: &RecordPatchDto) -> (core: RecordPatch)
    ensures
        core@ == patch@,
        core.bot_id == patch.bot_id,
        core.session_id == patch.session_id,
        core.tenant == patch.tenant,
        core.source == patch.source,
        core.metadata == patch.metadata,
        core.expires_at == patch.expires_at,
        core.retention_policy == patch.retention_policy,
        core.lifecycle_status == patch.lifecycle_status,
        core.retired_at == patch.retired_at,
        core.retired_reason == patch.retired_reason,
        (core.embedding is Some) == (patch.embedding is Some),
        patch.embedding is Some ==> core.embedding->0@ == patch.embedding->0@,
        (core.state_metadata is Some) == (patch.state_metadata is Some),
        patch.state_metadata is Some ==> {
            &&& core.state_metadata->0.step == patch.state_metadata->0.step
            &&& core.state_metadata->0.active_plan_id == patch.state_metadata->0.active_plan_id
            &&& core.state_metadata->0.tokens_used == patch.state_metadata->0.tokens_used
            &&& core.state_metadata->0.custom == patch.state_metadata->0.custom
        },
        (core.relationships is Some) == (patch.relationships is Some),
        patch.relationships is Some ==> core.relationships->0.len()
            == patch.relationships->0.len(),
        patch.relationships is Some ==> forall|i: int|
            #![trigger core.relationships->0[i]]
            0 <= i < patch.relationships->0.len() ==> {
                &&& core.relationships->0[i].target_id == patch.relationships->0[i].target_id
                &&& core.relationships->0[i].relation == patch.relationships->0[i].relation
                &&& core.relationships->0[i].weight == patch.relationships->0[i].weight
            },
{
    RecordPatch {
        bot_id: patch.bot_id.clone(),
        session_id: patch.session_id.clone(),
        tenant: patch.tenant.clone(),
        source: patch.source.clone(),
        state_metadata: state_metadata_from_dto(&patch.state_metadata),
        metadata: patch.metadata.clone(),
        relationships: match &patch.relationships {
            Some(relationships) => Some(relationships_from_dto(relationships)),
            None => None,
        },
        expires_at: patch.expires_at,
        retention_policy: patch.retention_policy.clone(),
        lifecycle_status: copy_status(&patch.lifecycle_status),
        retired_at: patch.retired_at,
        retired_reason: patch.retired_reason.clone(),
        embedding: patch.embedding.clone(),
    }
}

/// The record that `r` asks for, made at the time that is now read from `clock`.
pub fn record_from_add_request(
    clock: &mut Clock,
    r: &AddRecordRequest,
    id: String,
    run_id: String,
) -> (record: ContextRecord)
    ensures
        record@ == new_record(r@, id@, run_id@, record.created_at),
        record.created_at.nanos < 1_000_000_000,
        final(clock)@ == old(clock)@.push(record.created_at),
{
    let created_at = clock.now();
    record_created_at(r, id, run_id, created_at)
}

/// When the records were made, in their order.
pub open spec fn creation_times(records: Seq<ContextRecord>) -> Seq<Timestamp> {
    records.map_values(|record: ContextRecord| record.created_at)
}

/// The records are those that `requests` ask for, one for each and in their order: each
/// has its identifier from `ids`, and all of them are of the run `run_id`.
pub open spec fn is_batch(
    records: Seq<ContextRecord>,
    requests: Seq<AddRecordRequest>,
    run_id: Seq<char>,
    ids: Seq<String>,
) -> bool {
    &&& records.len() == requests.len()
    &&& ids.len() == requests.len()
    &&& forall|i: int|
        #![trigger records[i]]
        0 <= i < requests.len() ==> {
            &&& records[i]@ == new_record(requests[i]@, ids[i]@, run_id, records[i].created_at)
            &&& records[i].created_at.nanos < 1_000_000_000
        }
}

/// The records that `requests` ask for, with these identifiers and this run, each made at a
/// time that is read from `clock` for it.
pub fn records_with_ids(
    clock: &mut Clock,
    requests: &Vec<AddRecordRequest>,
    run_id: &String,
    ids: &Vec<String>,
) -> (records: Vec<ContextRecord>)
    requires
        ids.len() == requests.len(),
    ensures
        is_batch(records@, requests@, run_id@, ids@),
        final(clock)@ == old(clock)@ + creation_times(records@),
        records.len() == requests.len(),
        final(clock)@.len() == old(clock)@.len() + records.len(),
        forall|i: int| 0 <= i < old(clock)@.len() ==> final(clock)@[i] == old(clock)@[i],
        forall|i: int|
            #![trigger records[i]]
            0 <= i < records.len() ==> {
                &&& records[i].id@ == ids[i]@
                &&& records[i].run_id@ == run_id@
                &&& records[i].created_at == final(clock)@[old(clock)@.len() + i]
            },
{
    let mut records: Vec<ContextRecord> = Vec::with_capacity(requests.len());
    for i in 0..requests.len()
        invariant
            ids.len() == requests.len(),
            records.len() == i,
            clock@ == old(clock)@ + creation_times(records@),
            forall|j: int|
                #![trigger records[j]]
                0 <= j < i ==> {
                    &&& records[j]@ == new_record(
                        requests[j]@,
                        ids[j]@,
                        run_id@,
                        records[j].created_at,
                    )
                    &&& records[j].created_at.nanos < 1_000_000_000
                    &&& records[j].id@ == ids[j]@
                    &&& records[j].run_id@ == run_id@
                },
    {
        let ghost before = records@;
        let record = record_from_add_request(clock, &requests[i], ids[i].clone(), run_id.clone());
        records.push(record);
        assert(creation_times(records@) == creation_times(before).push(record.created_at));
        assert(record@.id == ids[i as int]@ && record@.run_id == run_id@);
    }
    assert forall|i: int| #![trigger records[i]] 0 <= i < records.len() implies records[i].created_at
        == clock@[old(clock)@.len() + i] by {
        assert(creation_times(records@)[i] == records[i].created_at);
    }
    records
}

/// The record that `r` asks for, made at `created_at`.
pub fn record_created_at(
    r: &AddRecordRequest,
    id: String,
    run_id: String,
    created_at: Timestamp,
) -> (record: ContextRecord)
    ensures
        record@ == new_record(r@, id@, run_id@, created_at),
        record.id == id,
        record.run_id == run_id,
        record.created_at == created_at,
        record.external_id == r.external_id,
        record.bot_id == r.bot_id,
        record.session_id == r.session_id,
        record.tenant == r.tenant,
        record.source == r.source,
        record.role == r.role,
        record.metadata == r.metadata,
        record.expires_at == r.expires_at,
        record.retention_policy == r.retention_policy,
        record.supersedes_id == r.supersedes_id,
        record.content_type == r.content_type,
        record.text_payload == r.text_payload,
        record.lifecycle_status@ == "active"@,
        record.retired_at is None,
        record.retired_reason is None,
        record.superseded_by_id is None,
        (record.binary_payload is Some) == (r.binary_payload is Some),
        r.binary_payload is Some ==> record.binary_payload->0@ == r.binary_payload->0@,
        (record.embedding is Some) == (r.embedding is Some),
        r.embedding is Some ==> record.embedding->0@ == r.embedding->0@,
        (record.state_metadata is Some) == (r.state_metadata is Some),
        r.state_metadata is Some ==> {
            &&& record.state_metadata->0.step == r.state_metadata->0.step
            &&& record.state_metadata->0.active_plan_id == r.state_metadata->0.active_plan_id
            &&& record.state_metadata->0.tokens_used == r.state_metadata->0.tokens_used
            &&& record.state_metadata->0.custom == r.state_metadata->0.custom
        },
        record.relationships.len() == r.relationships.len(),
        forall|i: int|
            #![trigger record.relationships[i]]
            0 <= i < r.relationships.len() ==> {
                &&& record.relationships[i].target_id == r.relationships[i].target_id
                &&& record.relationships[i].relation == r.relationships[i].relation
                &&& record.relationships[i].weight == r.relationships[i].weight
            },
{
    ContextRecord {
        id,
        external_id: r.external_id.clone(),
        run_id,
        bot_id: r.bot_id.clone(),
        session_id: r.session_id.clone(),
        tenant: r.tenant.clone(),
        source: r.source.clone(),
        created_at,
        role: r.role.clone(),
        state_metadata: state_metadata_from_dto(&r.state_metadata),
        metadata: r.metadata.clone(),
        relationships: relationships_from_dto(&r.relationships),
        expires_at: r.expires_at,
        retention_policy: r.retention_policy.clone(),
        lifecycle_status: LIFECYCLE_ACTIVE.to_owned(),
        retired_at: None,
        retired_reason: None,
        supersedes_id: r.supersedes_id.clone(),
        superseded_by_id: None,
        content_type: r.content_type.clone(),
        text_payload: r.text_payload.clone(),
        binary_payload: r.binary_payload.clone(),
        embedding: r.embedding.clone(),
    }
}

} // verus!
