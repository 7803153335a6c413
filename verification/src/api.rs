//! What requests carry and what responses show.

use serde_json::Value;
use vstd::prelude::*;

use crate::clock::Timestamp;
use crate::model;
use crate::model::{
    F32Bits, LifecycleStatus, PatchView, RecordView, RelationshipView, StateMetadataView,
};

verus! {

/// [`crate::model::StateMetadata`], as requests and responses write it.
#[derive(Clone, Debug, PartialEq)]
pub struct StateMetadataDto {
    pub step: Option<i32>,
    pub active_plan_id: Option<String>,
    pub tokens_used: Option<i32>,
    pub custom: Option<String>,
}

impl View for StateMetadataDto {
    type V = StateMetadataView;

    open spec fn view(&self) -> StateMetadataView {
        StateMetadataView {
            step: self.step,
            active_plan_id: model::opt_view(self.active_plan_id),
            tokens_used: self.tokens_used,
            custom: model::opt_view(self.custom),
        }
    }
}

/// [`crate::model::Relationship`], as requests and responses write it.
#[derive(Clone, Debug, PartialEq)]
pub struct RelationshipDto {
    pub target_id: String,
    pub relation: String,
    pub weight: Option<F32Bits>,
}

impl View for RelationshipDto {
    type V = RelationshipView;

    open spec fn view(&self) -> RelationshipView {
        RelationshipView {
            target_id: self.target_id@,
            relation: self.relation@,
            weight: self.weight,
        }
    }
}

/// [`crate::model::ContextRecord`], as responses show it.
#[derive(Clone, Debug, PartialEq)]
pub struct RecordDto {
    pub id: String,
    pub external_id: Option<String>,
    pub run_id: String,
    pub bot_id: Option<String>,
    pub session_id: Option<String>,
    pub tenant: Option<String>,
    pub source: Option<String>,
    pub created_at: Timestamp,
    pub role: String,
    pub content_type: String,
    pub text_payload: Option<String>,
    pub binary_payload: Option<Vec<u8>>,
    pub embedding: Option<Vec<F32Bits>>,
    pub state_metadata: Option<StateMetadataDto>,
    pub metadata: Option<Value>,
    pub relationships: Vec<RelationshipDto>,
    pub expires_at: Option<Timestamp>,
    pub retention_policy: Option<String>,
    pub lifecycle_status: String,
    pub retired_at: Option<Timestamp>,
    pub retired_reason: Option<String>,
    pub supersedes_id: Option<String>,
    pub superseded_by_id: Option<String>,
}

impl View for RecordDto {
    type V = RecordView;

    open spec fn view(&self) -> RecordView {
        RecordView {
            id: self.id@,
            external_id: model::opt_view(self.external_id),
            run_id: self.run_id@,
            bot_id: model::opt_view(self.bot_id),
            session_id: model::opt_view(self.session_id),
            tenant: model::opt_view(self.tenant),
            source: model::opt_view(self.source),
            created_at: self.created_at,
            role: self.role@,
            state_metadata: model::opt_view(self.state_metadata),
            metadata: self.metadata,
            relationships: model::seq_view(self.relationships@),
            expires_at: self.expires_at,
            retention_policy: model::opt_view(self.retention_policy),
            lifecycle_status: self.lifecycle_status@,
            retired_at: self.retired_at,
            retired_reason: model::opt_view(self.retired_reason),
            supersedes_id: model::opt_view(self.supersedes_id),
            superseded_by_id: model::opt_view(self.superseded_by_id),
            content_type: self.content_type@,
            text_payload: model::opt_view(self.text_payload),
            binary_payload: model::opt_view(self.binary_payload),
            embedding: model::opt_view(self.embedding),
        }
    }
}

/// A record to add: what its author says of it.
#[derive(Clone, Debug, Default, PartialEq)]
pub struct AddRecordRequest {
    pub external_id: Option<String>,
    pub bot_id: Option<String>,
    pub session_id: Option<String>,
    pub tenant: Option<String>,
    pub source: Option<String>,
    pub role: String,
    pub content_type: String,
    pub text_payload: Option<String>,
    pub binary_payload: Option<Vec<u8>>,
    pub embedding: Option<Vec<F32Bits>>,
    pub state_metadata: Option<StateMetadataDto>,
    pub metadata: Option<Value>,
    pub relationships: Vec<RelationshipDto>,
    pub expires_at: Option<Timestamp>,
    pub retention_policy: Option<String>,
    pub supersedes_id: Option<String>,
}

/// The view of an [`AddRecordRequest`].
#[verifier::ext_equal]
pub struct AddRecordView {
    pub external_id: Option<Seq<char>>,
    pub bot_id: Option<Seq<char>>,
    pub session_id: Option<Seq<char>>,
    pub tenant: Option<Seq<char>>,
    pub source: Option<Seq<char>>,
    pub role: Seq<char>,
    pub content_type: Seq<char>,
    pub text_payload: Option<Seq<char>>,
    pub binary_payload: Option<Seq<u8>>,
    pub embedding: Option<Seq<F32Bits>>,
    pub state_metadata: Option<StateMetadataView>,
    pub metadata: Option<Value>,
    pub relationships: Seq<RelationshipView>,
    pub expires_at: Option<Timestamp>,
    pub retention_policy: Option<Seq<char>>,
    pub supersedes_id: Option<Seq<char>>,
}

impl View for AddRecordRequest {
    type V = AddRecordView;

    open spec fn view(&self) -> AddRecordView {
        AddRecordView {
            external_id: model::opt_view(self.external_id),
            bot_id: model::opt_view(self.bot_id),
            session_id: model::opt_view(self.session_id),
            tenant: model::opt_view(self.tenant),
            source: model::opt_view(self.source),
            role: self.role@,
            content_type: self.content_type@,
            text_payload: model::opt_view(self.text_payload),
            binary_payload: model::opt_view(self.binary_payload),
            embedding: model::opt_view(self.embedding),
            state_metadata: model::opt_view(self.state_metadata),
            metadata: self.metadata,
            relationships: model::seq_view(self.relationships@),
            expires_at: self.expires_at,
            retention_policy: model::opt_view(self.retention_policy),
            supersedes_id: model::opt_view(self.supersedes_id),
        }
    }
}

/// Records to add, as one run.
#[derive(Clone, Debug, PartialEq)]
pub struct AddRecordsRequest {
    pub records: Vec<AddRecordRequest>,
}

/// The identifiers that added records were given, in the order of the request.
#[derive(Debug, PartialEq)]
pub struct AddRecordsResponse {
    pub version: u64,
    pub ids: Vec<String>,
    pub count: usize,
}

/// A record to add, or to put in the place of the one that `key` finds.
#[derive(Clone, Debug, PartialEq)]
pub struct UpsertRecordRequest {
    pub record: AddRecordRequest,
    pub key: String,
}

/// Whether a record was added or took the place of another, and the record.
#[derive(Debug, PartialEq)]
pub struct UpsertRecordResponse {
    pub version: u64,
    pub inserted: bool,
    pub replaced_id: Option<String>,
    pub record: RecordDto,
}

/// [`crate::model::RecordPatch`], as a request writes it.
#[derive(Clone, Debug, Default, PartialEq)]
pub struct RecordPatchDto {
    pub bot_id: Option<String>,
    pub session_id: Option<String>,
    pub tenant: Option<String>,
    pub source: Option<String>,
    pub state_metadata: Option<StateMetadataDto>,
    pub metadata: Option<Value>,
    pub relationships: Option<Vec<RelationshipDto>>,
    pub expires_at: Option<Timestamp>,
    pub retention_policy: Option<String>,
    pub lifecycle_status: Option<Option<LifecycleStatus>>,
    pub retired_at: Option<Timestamp>,
    pub retired_reason: Option<String>,
    pub embedding: Option<Vec<F32Bits>>,
}

impl View for RecordPatchDto {
    type V = PatchView;

    open spec fn view(&self) -> PatchView {
        PatchView {
            bot_id: model::opt_view(self.bot_id),
            session_id: model::opt_view(self.session_id),
            tenant: model::opt_view(self.tenant),
            source: model::opt_view(self.source),
            state_metadata: model::opt_view(self.state_metadata),
            metadata: self.metadata,
            relationships: model::opt_seq_view(self.relationships),
            expires_at: self.expires_at,
            retention_policy: model::opt_view(self.retention_policy),
            lifecycle_status: model::status_view(self.lifecycle_status),
            retired_at: self.retired_at,
            retired_reason: model::opt_view(self.retired_reason),
            embedding: model::opt_view(self.embedding),
        }
    }
}

impl RecordPatchDto {
    /// Whether the patch names no field at all.
    pub fn is_empty(&self) -> (empty: bool)
        ensures
            empty == (self@ == PatchView::empty()),
            empty <==> {
                &&& self.bot_id is None
                &&& self.session_id is None
                &&& self.tenant is None
                &&& self.source is None
                &&& self.state_metadata is None
                &&& self.metadata is None
                &&& self.relationships is None
                &&& self.expires_at is None
                &&& self.retention_policy is None
                &&& self.lifecycle_status is None
                &&& self.retired_at is None
                &&& self.retired_reason is None
                &&& self.embedding is None
            },
    {
        self.bot_id.is_none() && self.session_id.is_none() && self.tenant.is_none()
            && self.source.is_none() && self.state_metadata.is_none() && self.metadata.is_none()
            && self.relationships.is_none() && self.expires_at.is_none()
            && self.retention_policy.is_none() && self.lifecycle_status.is_none()
            && self.retired_at.is_none() && self.retired_reason.is_none()
            && self.embedding.is_none()
    }
}

/// A patch for the one record that `id` or `external_id` names.
#[derive(Clone, Debug, PartialEq)]
pub struct UpdateRecordRequest {
    pub id: Option<String>,
    pub external_id: Option<String>,
    pub patch: RecordPatchDto,
}

/// Whether there was a record to patch, the one that its successor replaced, and the successor.
#[derive(Debug, PartialEq)]
pub struct UpdateRecordResponse {
    pub version: u64,
    pub updated: bool,
    pub replaced_id: Option<String>,
    pub record: Option<RecordDto>,
}

/// The record that was asked for, if there is one.
#[derive(Debug, PartialEq)]
pub struct GetRecordResponse {
    pub record: Option<RecordDto>,
}

/// Whether there was a record to delete, and the version of the store after that.
#[derive(Clone, Copy, Debug, PartialEq, Eq, Structural)]
pub struct DeleteRecordResponse {
    pub deleted: bool,
    pub version: u64,
}

/// The records that were found, in the order of the store.
#[derive(Debug, PartialEq)]
pub struct ListRecordsResponse {
    pub records: Vec<RecordDto>,
}

/// The status that a successful response is sent with.
#[derive(Clone, Copy, Debug, PartialEq, Eq, Structural)]
pub enum StatusCode {
    OK,
    CREATED,
}

} // verus!
