//! Records as the store holds them, and the mathematical view of them.

use serde_json::Value;
use vstd::prelude::*;

use crate::clock::Timestamp;

verus! {

/// The status of a record that is in use.
pub const LIFECYCLE_ACTIVE: &'static str = "active";

/// The view of an optional value.
pub open spec fn opt_view<T: View>(value: Option<T>) -> Option<T::V> {
    match value {
        Some(value) => Some(value@),
        None => None,
    }
}

/// The views of the items of a sequence, in order.
pub open spec fn seq_view<T: View>(items: Seq<T>) -> Seq<T::V> {
    items.map_values(|item: T| item@)
}

/// A 32-bit floating-point number, by its bit pattern.
#[derive(Clone, Copy, Debug, PartialEq, Eq, Structural)]
pub struct F32Bits {
    pub bits: u32,
}

/// Where an agent stood when a record was made.
#[derive(Clone, Debug, PartialEq)]
pub struct StateMetadata {
    pub step: Option<i32>,
    pub active_plan_id: Option<String>,
    pub tokens_used: Option<i32>,
    pub custom: Option<String>,
}

/// The view of a [`StateMetadata`].
#[verifier::ext_equal]
pub struct StateMetadataView {
    pub step: Option<i32>,
    pub active_plan_id: Option<Seq<char>>,
    pub tokens_used: Option<i32>,
    pub custom: Option<Seq<char>>,
}

impl View for StateMetadata {
    type V = StateMetadataView;

    open spec fn view(&self) -> StateMetadataView {
        StateMetadataView {
            step: self.step,
            active_plan_id: opt_view(self.active_plan_id),
            tokens_used: self.tokens_used,
            custom: opt_view(self.custom),
        }
    }
}

/// A link from a record to another.
#[derive(Clone, Debug, PartialEq)]
pub struct Relationship {
    pub target_id: String,
    pub relation: String,
    pub weight: Option<F32Bits>,
}

/// The view of a [`Relationship`].
#[verifier::ext_equal]
pub struct RelationshipView {
    pub target_id: Seq<char>,
    pub relation: Seq<char>,
    pub weight: Option<F32Bits>,
}

impl View for Relationship {
    type V = RelationshipView;

    open spec fn view(&self) -> RelationshipView {
        RelationshipView {
            target_id: self.target_id@,
            relation: self.relation@,
            weight: self.weight,
        }
    }
}

/// A record as the store holds it.
#[derive(Clone, Debug, PartialEq)]
pub struct ContextRecord {
    pub id: String,
    pub external_id: Option<String>,
    pub run_id: String,
    pub bot_id: Option<String>,
    pub session_id: Option<String>,
    pub tenant: Option<String>,
    pub source: Option<String>,
    pub created_at: Timestamp,
    pub role: String,
    pub state_metadata: Option<StateMetadata>,
    pub metadata: Option<Value>,
    pub relationships: Vec<Relationship>,
    pub expires_at: Option<Timestamp>,
    pub retention_policy: Option<String>,
    pub lifecycle_status: String,
    pub retired_at: Option<Timestamp>,
    pub retired_reason: Option<String>,
    pub supersedes_id: Option<String>,
    pub superseded_by_id: Option<String>,
    pub content_type: String,
    pub text_payload: Option<String>,
    pub binary_payload: Option<Vec<u8>>,
    pub embedding: Option<Vec<F32Bits>>,
}

/// The view of a record, whether the store holds it or a response shows it.
#[verifier::ext_equal]
pub struct RecordView {
    pub id: Seq<char>,
    pub external_id: Option<Seq<char>>,
    pub run_id: Seq<char>,
    pub bot_id: Option<Seq<char>>,
    pub session_id: Option<Seq<char>>,
    pub tenant: Option<Seq<char>>,
    pub source: Option<Seq<char>>,
    pub created_at: Timestamp,
    pub role: Seq<char>,
    pub state_metadata: Option<StateMetadataView>,
    pub metadata: Option<Value>,
    pub relationships: Seq<RelationshipView>,
    pub expires_at: Option<Timestamp>,
    pub retention_policy: Option<Seq<char>>,
    pub lifecycle_status: Seq<char>,
    pub retired_at: Option<Timestamp>,
    pub retired_reason: Option<Seq<char>>,
    pub supersedes_id: Option<Seq<char>>,
    pub superseded_by_id: Option<Seq<char>>,
    pub content_type: Seq<char>,
    pub text_payload: Option<Seq<char>>,
    pub binary_payload: Option<Seq<u8>>,
    pub embedding: Option<Seq<F32Bits>>,
}

impl View for ContextRecord {
    type V = RecordView;

    open spec fn view(&self) -> RecordView {
        RecordView {
            id: self.id@,
            external_id: opt_view(self.external_id),
            run_id: self.run_id@,
            bot_id: opt_view(self.bot_id),
            session_id: opt_view(self.session_id),
            tenant: opt_view(self.tenant),
            source: opt_view(self.source),
            created_at: self.created_at,
            role: self.role@,
            state_metadata: opt_view(self.state_metadata),
            metadata: self.metadata,
            relationships: seq_view(self.relationships@),
            expires_at: self.expires_at,
            retention_policy: opt_view(self.retention_policy),
            lifecycle_status: self.lifecycle_status@,
            retired_at: self.retired_at,
            retired_reason: opt_view(self.retired_reason),
            supersedes_id: opt_view(self.supersedes_id),
            superseded_by_id: opt_view(self.superseded_by_id),
            content_type: self.content_type@,
            text_payload: opt_view(self.text_payload),
            binary_payload: opt_view(self.binary_payload),
            embedding: opt_view(self.embedding),
        }
    }
}

/// The status that a patch gives a record: one with a name of its own here, or
/// another, by its name.
#[derive(Clone, Debug, PartialEq)]
pub enum LifecycleStatus {
    Active,
    Contradicted,
    Other(String),
}

/// The view of a [`LifecycleStatus`].
#[verifier::ext_equal]
pub enum LifecycleStatusView {
    Active,
    Contradicted,
    Other(Seq<char>),
}

impl View for LifecycleStatus {
    type V = LifecycleStatusView;

    open spec fn view(&self) -> LifecycleStatusView {
        match self {
            LifecycleStatus::Active => LifecycleStatusView::Active,
            LifecycleStatus::Contradicted => LifecycleStatusView::Contradicted,
            LifecycleStatus::Other(name) => LifecycleStatusView::Other(name@),
        }
    }
}

/// Changes to a record: a field that is `None` stays as it is. A status can also be
/// set to none (`Some(None)`).
#[derive(Clone, Debug, PartialEq)]
pub struct RecordPatch {
    pub bot_id: Option<String>,
    pub session_id: Option<String>,
    pub tenant: Option<String>,
    pub source: Option<String>,
    pub state_metadata: Option<StateMetadata>,
    pub metadata: Option<Value>,
    pub relationships: Option<Vec<Relationship>>,
    pub expires_at: Option<Timestamp>,
    pub retention_policy: Option<String>,
    pub lifecycle_status: Option<Option<LifecycleStatus>>,
    pub retired_at: Option<Timestamp>,
    pub retired_reason: Option<String>,
    pub embedding: Option<Vec<F32Bits>>,
}

/// The view of a patch, as a request carries it and as the store gets it.
#[verifier::ext_equal]
pub struct PatchView {
    pub bot_id: Option<Seq<char>>,
    pub session_id: Option<Seq<char>>,
    pub tenant: Option<Seq<char>>,
    pub source: Option<Seq<char>>,
    pub state_metadata: Option<StateMetadataView>,
    pub metadata: Option<Value>,
    pub relationships: Option<Seq<RelationshipView>>,
    pub expires_at: Option<Timestamp>,
    pub retention_policy: Option<Seq<char>>,
    pub lifecycle_status: Option<Option<LifecycleStatusView>>,
    pub retired_at: Option<Timestamp>,
    pub retired_reason: Option<Seq<char>>,
    pub embedding: Option<Seq<F32Bits>>,
}

impl PatchView {
    /// The patch that changes nothing.
    pub open spec fn empty() -> PatchView {
        PatchView {
            bot_id: None,
            session_id: None,
            tenant: None,
            source: None,
            state_metadata: None,
            metadata: None,
            relationships: None,
            expires_at: None,
            retention_policy: None,
            lifecycle_status: None,
            retired_at: None,
            retired_reason: None,
            embedding: None,
        }
    }
}

/// The view of an optional list.
pub open spec fn opt_seq_view<T: View>(items: Option<Vec<T>>) -> Option<Seq<T::V>> {
    match items {
        Some(items) => Some(seq_view(items@)),
        None => None,
    }
}

/// The view of an optional status that may be set to none.
pub open spec fn status_view(status: Option<Option<LifecycleStatus>>) -> Option<
    Option<LifecycleStatusView>,
> {
    match status {
        Some(status) => Some(opt_view(status)),
        None => None,
    }
}

impl View for RecordPatch {
    type V = PatchView;

    open spec fn view(&self) -> PatchView {
        PatchView {
            bot_id: opt_view(self.bot_id),
            session_id: opt_view(self.session_id),
            tenant: opt_view(self.tenant),
            source: opt_view(self.source),
            state_metadata: opt_view(self.state_metadata),
            metadata: self.metadata,
            relationships: opt_seq_view(self.relationships),
            expires_at: self.expires_at,
            retention_policy: opt_view(self.retention_policy),
            lifecycle_status: status_view(self.lifecycle_status),
            retired_at: self.retired_at,
            retired_reason: opt_view(self.retired_reason),
            embedding: opt_view(self.embedding),
        }
    }
}

/// Which records a query shows besides those in use.
#[derive(Clone, Copy, Debug, PartialEq, Eq, Structural)]
pub struct LifecycleQueryOptions {
    pub include_expired: bool,
    pub include_retired: bool,
}

impl LifecycleQueryOptions {
    pub fn new(include_expired: bool, include_retired: bool) -> (options: Self)
        ensures
            options.include_expired == include_expired,
            options.include_retired == include_retired,
    {
        LifecycleQueryOptions { include_expired, include_retired }
    }
}

} // verus!
