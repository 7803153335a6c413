//! Single requests: what is refused and why, what the store is called with, and what its
//! replies are answered with.

use lance_context_server::api::{
    AddRecordRequest, AddRecordsRequest, DeleteRecordResponse, RecordPatchDto, RelationshipDto,
    StateMetadataDto, StatusCode, UpdateRecordRequest, UpsertRecordRequest,
};
use lance_context_server::clock::{Clock, Timestamp};
use lance_context_server::convert::{
    dto_to_relationship, patch_from_dto, record_created_at, record_from_add_request, record_to_dto,
    records_to_dto, records_with_ids, relationship_to_dto,
};
use lance_context_server::error::AppError;
use lance_context_server::ids::IdSource;
use lance_context_server::model::{
    ContextRecord, F32Bits, LifecycleQueryOptions, LifecycleStatus, Relationship, LIFECYCLE_ACTIVE,
};
use lance_context_server::routes::records::{
    add_records, add_records_reply, delete_record, delete_record_by_external_id,
    delete_record_reply, get_record, get_record_by_external_id, get_record_reply, list_records,
    list_records_call, list_records_parsed, list_records_read, list_records_reply, related_records, update_record,
    update_record_reply, upsert_record, upsert_record_reply, ExternalIdParams, ListParams,
    RecordKey, RelatedParams, UpdateResult, UpsertResult,
};

const MOMENT: Timestamp = Timestamp { secs: 1_700_000_000, nanos: 5 };

fn full_request() -> AddRecordRequest {
    AddRecordRequest {
        external_id: Some("ext".to_string()),
        bot_id: Some("bot".to_string()),
        session_id: Some("session".to_string()),
        tenant: Some("tenant".to_string()),
        source: Some("source".to_string()),
        role: "user".to_string(),
        content_type: "text/plain".to_string(),
        text_payload: Some("text".to_string()),
        binary_payload: Some(vec![1, 2, 3]),
        embedding: Some(vec![F32Bits { bits: 0.5f32.to_bits() }]),
        state_metadata: Some(StateMetadataDto {
            step: Some(3),
            active_plan_id: Some("plan".to_string()),
            tokens_used: Some(-1),
            custom: Some("custom".to_string()),
        }),
        metadata: Some(serde_json::from_str(r#"{"a": [true]}"#).unwrap()),
        relationships: vec![link("one", "cites"), link("two", "replies_to")],
        expires_at: Some(Timestamp { secs: 9, nanos: 8 }),
        retention_policy: Some("policy".to_string()),
        supersedes_id: Some("older".to_string()),
    }
}

fn link(target: &str, relation: &str) -> RelationshipDto {
    RelationshipDto {
        target_id: target.to_string(),
        relation: relation.to_string(),
        weight: Some(F32Bits { bits: 0.75f32.to_bits() }),
    }
}

fn record(id: &str) -> ContextRecord {
    record_created_at(&full_request(), id.to_string(), "run".to_string(), MOMENT)
}

fn name() -> String {
    "ctx".to_string()
}

fn missing() -> AppError {
    AppError::NotFound("Context 'ctx' does not exist".to_string())
}

fn invalid(message: &str) -> AppError {
    AppError::InvalidRequest(message.to_string())
}

fn is_uuid_v4(text: &str) -> bool {
    text.len() == 36
        && text.chars().enumerate().all(|(i, c)| match i {
            8 | 13 | 18 | 23 => c == '-',
            14 => c == '4',
            19 => "89ab".contains(c),
            _ => "0123456789abcdef".contains(c),
        })
}

#[test]
fn new_record_has_what_the_request_says() {
    let r = record("id-1");
    assert_eq!(r.id, "id-1");
    assert_eq!(r.run_id, "run");
    assert_eq!(r.created_at, MOMENT);
    assert_eq!(r.external_id.as_deref(), Some("ext"));
    assert_eq!(r.bot_id.as_deref(), Some("bot"));
    assert_eq!(r.session_id.as_deref(), Some("session"));
    assert_eq!(r.tenant.as_deref(), Some("tenant"));
    assert_eq!(r.source.as_deref(), Some("source"));
    assert_eq!(r.role, "user");
    assert_eq!(r.content_type, "text/plain");
    assert_eq!(r.text_payload.as_deref(), Some("text"));
    assert_eq!(r.binary_payload, Some(vec![1, 2, 3]));
    assert_eq!(r.embedding, Some(vec![F32Bits { bits: 0x3f00_0000 }]));
    let state = r.state_metadata.unwrap();
    assert_eq!(state.step, Some(3));
    assert_eq!(state.active_plan_id.as_deref(), Some("plan"));
    assert_eq!(state.tokens_used, Some(-1));
    assert_eq!(state.custom.as_deref(), Some("custom"));
    assert_eq!(r.metadata.unwrap().to_string(), r#"{"a":[true]}"#);
    assert_eq!(r.relationships.len(), 2);
    assert_eq!(r.relationships[1].target_id, "two");
    assert_eq!(r.relationships[1].relation, "replies_to");
    assert_eq!(r.relationships[1].weight, Some(F32Bits { bits: 0x3f40_0000 }));
    assert_eq!(r.expires_at, Some(Timestamp { secs: 9, nanos: 8 }));
    assert_eq!(r.retention_policy.as_deref(), Some("policy"));
    assert_eq!(r.supersedes_id.as_deref(), Some("older"));
}

#[test]
fn new_record_is_in_use() {
    let r = record("id-1");
    assert_eq!(LIFECYCLE_ACTIVE, "active");
    assert_eq!(r.lifecycle_status, "active");
    assert_eq!(r.retired_at, None);
    assert_eq!(r.retired_reason, None);
    assert_eq!(r.superseded_by_id, None);
}

#[test]
fn new_record_is_made_now() {
    let before = chrono::Utc::now().timestamp();
    let r = record_from_add_request(&mut Clock::new(), &full_request(), "id".to_string(), "run".to_string());
    let after = chrono::Utc::now().timestamp();
    assert!(before <= r.created_at.secs && r.created_at.secs <= after);
    assert!(r.created_at.nanos < 1_000_000_000);
}

#[test]
fn shown_record_has_every_field() {
    let mut r = record("id-1");
    r.lifecycle_status = "retired".to_string();
    r.retired_at = Some(MOMENT);
    r.retired_reason = Some("why".to_string());
    r.superseded_by_id = Some("newer".to_string());
    let dto = record_to_dto(r.clone());
    assert_eq!(dto.id, r.id);
    assert_eq!(dto.external_id, r.external_id);
    assert_eq!(dto.run_id, r.run_id);
    assert_eq!(dto.bot_id, r.bot_id);
    assert_eq!(dto.session_id, r.session_id);
    assert_eq!(dto.tenant, r.tenant);
    assert_eq!(dto.source, r.source);
    assert_eq!(dto.created_at, r.created_at);
    assert_eq!(dto.role, r.role);
    assert_eq!(dto.content_type, r.content_type);
    assert_eq!(dto.text_payload, r.text_payload);
    assert_eq!(dto.binary_payload, r.binary_payload);
    assert_eq!(dto.embedding, r.embedding);
    assert_eq!(dto.state_metadata, full_request().state_metadata);
    assert_eq!(dto.metadata, r.metadata);
    assert_eq!(dto.relationships, full_request().relationships);
    assert_eq!(dto.expires_at, r.expires_at);
    assert_eq!(dto.retention_policy, r.retention_policy);
    assert_eq!(dto.lifecycle_status, "retired");
    assert_eq!(dto.retired_at, Some(MOMENT));
    assert_eq!(dto.retired_reason.as_deref(), Some("why"));
    assert_eq!(dto.supersedes_id, r.supersedes_id);
    assert_eq!(dto.superseded_by_id.as_deref(), Some("newer"));
}

#[test]
fn relationship_survives_both_ways() {
    let dto = link("target", "cites");
    let stored = dto_to_relationship(dto.clone());
    assert_eq!(
        stored,
        Relationship {
            target_id: "target".to_string(),
            relation: "cites".to_string(),
            weight: Some(F32Bits { bits: 0x3f40_0000 }),
        }
    );
    assert_eq!(relationship_to_dto(stored), dto);
}

#[test]
fn patch_keeps_every_field() {
    let full = full_request();
    let dto = RecordPatchDto {
        bot_id: Some("b".to_string()),
        session_id: Some("s".to_string()),
        tenant: Some("t".to_string()),
        source: Some("o".to_string()),
        state_metadata: full.state_metadata,
        metadata: full.metadata.clone(),
        relationships: Some(full.relationships),
        expires_at: Some(MOMENT),
        retention_policy: Some("p".to_string()),
        lifecycle_status: Some(Some(LifecycleStatus::Other("stale".to_string()))),
        retired_at: Some(Timestamp { secs: 1, nanos: 2 }),
        retired_reason: Some("r".to_string()),
        embedding: full.embedding.clone(),
    };
    let patch = patch_from_dto(&dto);
    assert_eq!(patch.bot_id.as_deref(), Some("b"));
    assert_eq!(patch.session_id.as_deref(), Some("s"));
    assert_eq!(patch.tenant.as_deref(), Some("t"));
    assert_eq!(patch.source.as_deref(), Some("o"));
    assert_eq!(patch.state_metadata.unwrap().active_plan_id.as_deref(), Some("plan"));
    assert_eq!(patch.metadata, full.metadata);
    let links = patch.relationships.unwrap();
    assert_eq!(links.len(), 2);
    assert_eq!(links[0].target_id, "one");
    assert_eq!(patch.expires_at, Some(MOMENT));
    assert_eq!(patch.retention_policy.as_deref(), Some("p"));
    assert_eq!(
        patch.lifecycle_status,
        Some(Some(LifecycleStatus::Other("stale".to_string())))
    );
    assert_eq!(patch.retired_at, Some(Timestamp { secs: 1, nanos: 2 }));
    assert_eq!(patch.retired_reason.as_deref(), Some("r"));
    assert_eq!(patch.embedding, full.embedding);
}

#[test]
fn patch_is_empty_only_without_fields() {
    assert!(RecordPatchDto::default().is_empty());
    let cleared = RecordPatchDto { lifecycle_status: Some(None), ..Default::default() };
    assert!(!cleared.is_empty());
    assert_eq!(patch_from_dto(&cleared).lifecycle_status, Some(None));
    let unlinked = RecordPatchDto { relationships: Some(Vec::new()), ..Default::default() };
    assert!(!unlinked.is_empty());
}

#[test]
fn addition_of_nothing_is_refused_first() {
    let empty = || AddRecordsRequest { records: Vec::new() };
    let refusal = invalid("records array must not be empty");
    assert_eq!(add_records(&mut IdSource::new(), &mut Clock::new(), Some(1), name(), empty()).unwrap_err(), refusal);
    assert_eq!(add_records(&mut IdSource::new(), &mut Clock::new(), None::<u8>, name(), empty()).unwrap_err(), refusal);
}

#[test]
fn addition_writes_one_record_for_each_request() {
    let mut second = full_request();
    second.text_payload = Some("second".to_string());
    let req = AddRecordsRequest { records: vec![full_request(), second] };
    let call = add_records(&mut IdSource::new(), &mut Clock::new(), Some("store"), name(), req).unwrap();
    assert_eq!(call.store, "store");
    assert_eq!(call.ids.len(), 2);
    assert_eq!(call.records.len(), 2);
    assert_ne!(call.ids[0], call.ids[1]);
    assert!(is_uuid_v4(&call.records[0].run_id));
    assert_eq!(call.records[0].run_id, call.records[1].run_id);
    for i in 0..2 {
        assert!(is_uuid_v4(&call.ids[i]));
        assert_eq!(call.records[i].id, call.ids[i]);
        assert_ne!(call.records[i].id, call.records[i].run_id);
    }
    assert_eq!(call.records[0].text_payload.as_deref(), Some("text"));
    assert_eq!(call.records[1].text_payload.as_deref(), Some("second"));

    let ids = call.ids.clone();
    let (status, response) = add_records_reply(call, Ok(7)).unwrap();
    assert_eq!(status, StatusCode::CREATED);
    assert_eq!(response.version, 7);
    assert_eq!(response.ids, ids);
    assert_eq!(response.count, 2);
}

#[test]
fn upsert_is_refused_in_order() {
    let upsert = |store: Option<u8>, key: &str, external_id: Option<&str>| {
        let mut record = full_request();
        record.external_id = external_id.map(str::to_string);
        upsert_record(&mut IdSource::new(), &mut Clock::new(), store, name(), UpsertRecordRequest { record, key: key.to_string() })
            .unwrap_err()
    };
    let unsupported = invalid("upsert key 'id' is not supported; use 'external_id'");
    assert_eq!(upsert(Some(1), "id", Some("x")), unsupported);
    assert_eq!(upsert(None, "id", None), unsupported);
    let unkeyed = invalid("upsert requires record.external_id");
    assert_eq!(upsert(Some(1), "external_id", None), unkeyed);
    assert_eq!(upsert(Some(1), "external_id", Some("")), unkeyed);
    assert_eq!(upsert(None, "external_id", Some("")), unkeyed);
    assert_eq!(upsert(None, "external_id", Some("x")), missing());
}

#[test]
fn upsert_writes_the_record() {
    let req = UpsertRecordRequest { record: full_request(), key: "external_id".to_string() };
    let call = upsert_record(&mut IdSource::new(), &mut Clock::new(), Some(1), name(), req).unwrap();
    assert!(is_uuid_v4(&call.record.id));
    assert!(is_uuid_v4(&call.record.run_id));
    assert_ne!(call.record.id, call.record.run_id);
    assert_eq!(call.record.external_id.as_deref(), Some("ext"));
    assert_eq!(call.record.text_payload.as_deref(), Some("text"));
    assert_eq!(call.record.lifecycle_status, "active");
}

#[test]
fn upsert_status_tells_insertion_from_replacement() {
    let reply = |inserted: bool, replaced_id: Option<String>| {
        Ok(UpsertResult { version: 4, inserted, replaced_id, record: record("new") })
    };
    let (status, response) = upsert_record_reply(reply(true, None)).unwrap();
    assert_eq!(status, StatusCode::CREATED);
    assert!(response.inserted);
    assert_eq!(response.replaced_id, None);
    assert_eq!(response.version, 4);
    let (status, response) = upsert_record_reply(reply(false, Some("old".to_string()))).unwrap();
    assert_eq!(status, StatusCode::OK);
    assert!(!response.inserted);
    assert_eq!(response.replaced_id.as_deref(), Some("old"));
    assert_eq!(response.record, record_to_dto(record("new")));
}

fn update(id: Option<&str>, external_id: Option<&str>, patch: RecordPatchDto) -> UpdateRecordRequest {
    UpdateRecordRequest {
        id: id.map(str::to_string),
        external_id: external_id.map(str::to_string),
        patch,
    }
}

fn some_patch() -> RecordPatchDto {
    RecordPatchDto { tenant: Some("t".to_string()), ..Default::default() }
}

#[test]
fn update_is_refused_in_order() {
    let refused = |store: Option<u8>, req: UpdateRecordRequest| {
        update_record(store, name(), req).unwrap_err()
    };
    let unchanged = invalid("update requires at least one patch field");
    assert_eq!(refused(None, update(None, None, RecordPatchDto::default())), unchanged);
    assert_eq!(refused(Some(1), update(Some("a"), None, RecordPatchDto::default())), unchanged);
    assert_eq!(refused(None, update(None, None, some_patch())), missing());
    assert_eq!(refused(None, update(Some("a"), Some("b"), some_patch())), missing());
    assert_eq!(
        refused(Some(1), update(None, None, some_patch())),
        invalid("update requires either id or external_id")
    );
    assert_eq!(
        refused(Some(1), update(Some("a"), Some("b"), some_patch())),
        invalid("update accepts only one of id or external_id")
    );
}

#[test]
fn update_goes_to_the_record_that_is_named() {
    let call = update_record(Some(1), name(), update(Some("a"), None, some_patch())).unwrap();
    assert_eq!(call.key, RecordKey::Id("a".to_string()));
    assert_eq!(call.patch.tenant.as_deref(), Some("t"));
    let call = update_record(Some(1), name(), update(None, Some("b"), some_patch())).unwrap();
    assert_eq!(call.key, RecordKey::ExternalId("b".to_string()));
}

#[test]
fn update_reply_shows_the_new_record() {
    let result = UpdateResult { version: 9, replaced_id: "old".to_string(), record: record("new") };
    let response = update_record_reply(Ok(Some(result)), 3).unwrap();
    assert!(response.updated);
    assert_eq!(response.version, 9);
    assert_eq!(response.replaced_id.as_deref(), Some("old"));
    assert_eq!(response.record, Some(record_to_dto(record("new"))));
    let response = update_record_reply(Ok(None), 3).unwrap();
    assert!(!response.updated);
    assert_eq!(response.version, 3);
    assert_eq!(response.replaced_id, None);
    assert_eq!(response.record, None);
}

#[test]
fn missing_context_is_answered_alike_everywhere() {
    let id = || "a".to_string();
    let params = || ExternalIdParams { external_id: id() };
    let req = AddRecordsRequest { records: vec![full_request()] };
    assert_eq!(add_records(&mut IdSource::new(), &mut Clock::new(), None::<u8>, name(), req).unwrap_err(), missing());
    assert_eq!(get_record(None::<u8>, name(), id()).unwrap_err(), missing());
    assert_eq!(get_record_by_external_id(None::<u8>, name(), params()).unwrap_err(), missing());
    assert_eq!(delete_record(None::<u8>, name(), id()).unwrap_err(), missing());
    assert_eq!(delete_record_by_external_id(None::<u8>, name(), params()).unwrap_err(), missing());
    let request = || list_records(name(), ListParams::default()).unwrap();
    assert_eq!(
        list_records_call(None::<u8>, name(), ListParams::default(), Ok(None::<u8>)).unwrap_err(),
        missing()
    );
    assert_eq!(
        list_records_read(None::<u8>, request(), |_| Ok::<u8, String>(1)).unwrap_err(),
        missing()
    );
    let related = RelatedParams {
        target_id: id(),
        relation: None,
        limit: None,
        include_expired: false,
        include_retired: false,
    };
    assert_eq!(related_records(None::<u8>, name(), related).unwrap_err(), missing());
}

#[test]
fn reads_and_deletions_carry_their_key() {
    let params = || ExternalIdParams { external_id: "e".to_string() };
    let call = get_record(Some(5), name(), "a".to_string()).unwrap();
    assert_eq!((call.store, call.key), (5, RecordKey::Id("a".to_string())));
    let call = get_record_by_external_id(Some(5), name(), params()).unwrap();
    assert_eq!((call.store, call.key), (5, RecordKey::ExternalId("e".to_string())));
    let call = delete_record(Some(5), name(), "a".to_string()).unwrap();
    assert_eq!((call.store, call.key), (5, RecordKey::Id("a".to_string())));
    let call = delete_record_by_external_id(Some(5), name(), params()).unwrap();
    assert_eq!((call.store, call.key), (5, RecordKey::ExternalId("e".to_string())));
}

#[test]
fn read_reply_shows_the_record_or_none() {
    let response = get_record_reply(Ok(Some(record("a")))).unwrap();
    assert_eq!(response.record, Some(record_to_dto(record("a"))));
    assert_eq!(get_record_reply(Ok(None)).unwrap().record, None);
}

#[test]
fn deletion_reply_gives_outcome_and_version() {
    assert_eq!(
        delete_record_reply(Ok(true), 8).unwrap(),
        DeleteRecordResponse { deleted: true, version: 8 }
    );
    assert_eq!(
        delete_record_reply(Ok(false), 8).unwrap(),
        DeleteRecordResponse { deleted: false, version: 8 }
    );
}

#[test]
fn store_failures_are_passed_on() {
    let failure = || "disk full".to_string();
    let error = AppError::Lance(failure());
    let req = AddRecordsRequest { records: vec![full_request()] };
    let call = add_records(&mut IdSource::new(), &mut Clock::new(), Some(1), name(), req).unwrap();
    assert_eq!(add_records_reply(call, Err(failure())).unwrap_err(), error);
    assert_eq!(upsert_record_reply(Err(failure())).unwrap_err(), error);
    assert_eq!(update_record_reply(Err(failure()), 1).unwrap_err(), error);
    assert_eq!(get_record_reply(Err(failure())).unwrap_err(), error);
    assert_eq!(delete_record_reply(Err(failure()), 1).unwrap_err(), error);
    assert_eq!(list_records_reply(Err(failure())).unwrap_err(), error);
}

#[test]
fn filters_are_read_as_json() {
    let params = ListParams { filters: Some(r#" {"role":"user"} "#.to_string()), ..Default::default() };
    let request = list_records(name(), params.clone()).unwrap();
    assert_eq!(request.name, "ctx");
    assert_eq!(request.params, params);
    let filters = request.filters.unwrap();
    assert_eq!(filters.get("role").and_then(|v| v.as_str()), Some("user"));
    assert_eq!(list_records(name(), ListParams::default()).unwrap().filters, None);
}

#[test]
fn filters_that_are_not_json_are_refused_with_the_reason() {
    let params = ListParams { filters: Some("not json".to_string()), ..Default::default() };
    assert_eq!(
        list_records(name(), params).unwrap_err(),
        invalid("invalid filters JSON: expected ident at line 1 column 2")
    );
    assert_eq!(
        list_records_parsed(name(), ListParams::default(), Some(Err("reason".to_string())))
            .unwrap_err(),
        invalid("invalid filters JSON: reason")
    );
}

#[test]
fn filters_that_mean_nothing_are_refused_before_the_context() {
    let request = || {
        let params = ListParams { filters: Some("1".to_string()), ..Default::default() };
        list_records(name(), params).unwrap()
    };
    let read = |_| Err::<u8, String>("unknown field".to_string());
    let refused = || Err::<Option<u8>, String>("unknown field".to_string());
    let refusal = invalid("unknown field");
    let params = ListParams::default;
    assert_eq!(list_records_call(Some(1), name(), params(), refused()).unwrap_err(), refusal);
    assert_eq!(list_records_call(None::<u8>, name(), params(), refused()).unwrap_err(), refusal);
    assert_eq!(list_records_read(Some(1), request(), read).unwrap_err(), refusal);
    assert_eq!(list_records_read(None::<u8>, request(), read).unwrap_err(), refusal);
}

#[test]
fn list_asks_what_its_parameters_say() {
    let params = ListParams {
        limit: Some(3),
        offset: Some(4),
        filters: None,
        include_expired: true,
        include_retired: false,
    };
    let call = list_records_call(Some(1), name(), params, Ok(Some("filters"))).unwrap();
    assert_eq!(call.store, 1);
    assert_eq!(call.limit, Some(3));
    assert_eq!(call.offset, Some(4));
    assert_eq!(call.filters, Some("filters"));
    assert_eq!(
        call.options,
        LifecycleQueryOptions { include_expired: true, include_retired: false }
    );
}

#[test]
fn list_defaults_to_every_record_in_use() {
    assert_eq!(
        ListParams::default(),
        ListParams {
            limit: None,
            offset: None,
            filters: None,
            include_expired: false,
            include_retired: false
        }
    );
}

#[test]
fn related_asks_what_its_parameters_say() {
    let params = RelatedParams {
        target_id: "t".to_string(),
        relation: Some("cites".to_string()),
        limit: Some(10),
        include_expired: false,
        include_retired: true,
    };
    let call = related_records(Some(1), name(), params).unwrap();
    assert_eq!(call.target_id, "t");
    assert_eq!(call.relation.as_deref(), Some("cites"));
    assert_eq!(call.limit, Some(10));
    assert_eq!(
        call.options,
        LifecycleQueryOptions { include_expired: false, include_retired: true }
    );
}

#[test]
fn list_reply_shows_all_in_order() {
    let response = list_records_reply(Ok(vec![record("a"), record("b")])).unwrap();
    let ids: Vec<&str> = response.records.iter().map(|r| r.id.as_str()).collect();
    assert_eq!(ids, vec!["a", "b"]);
    assert_eq!(response.records, records_to_dto(vec![record("a"), record("b")]));
}

#[test]
fn list_reads_the_filters_that_it_has() {
    let params = ListParams { filters: Some(r#"{"role": "user"}"#.to_string()), ..Default::default() };
    let request = list_records(name(), params).unwrap();
    let call = list_records_read(Some(1), request, |value| Ok(value.to_string())).unwrap();
    assert_eq!(call.filters.as_deref(), Some(r#"{"role":"user"}"#));

    let request = list_records(name(), ListParams::default()).unwrap();
    let call = list_records_read(Some(1), request, |value| Ok(value.to_string())).unwrap();
    assert_eq!(call.filters, None);
}

#[test]
fn batch_has_the_ids_that_it_is_given() {
    let requests = vec![full_request(), full_request()];
    let ids = vec!["a".to_string(), "b".to_string()];
    let records = records_with_ids(&mut Clock::new(), &requests, &"run".to_string(), &ids);
    let made: Vec<(&str, &str)> =
        records.iter().map(|r| (r.id.as_str(), r.run_id.as_str())).collect();
    assert_eq!(made, vec![("a", "run"), ("b", "run")]);
    assert_eq!(records[1].text_payload.as_deref(), Some("text"));
}

#[test]
fn every_draw_is_another_uuid() {
    let mut source = IdSource::new();
    let first = source.draw();
    let second = source.draw();
    assert!(is_uuid_v4(&first));
    assert!(is_uuid_v4(&second));
    assert_ne!(first, second);
}

#[test]
fn clock_reads_the_current_time() {
    let mut clock = Clock::new();
    let before = chrono::Utc::now().timestamp();
    let now = clock.now();
    assert!(before <= now.secs && now.secs <= chrono::Utc::now().timestamp());
    assert!(now.nanos < 1_000_000_000);
}
