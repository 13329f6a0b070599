//! Domain rules: validation, identifiers, mapping, stores, errors,
//! configuration and rendering.

use hello_world_api::api_error::ApiError;
use hello_world_api::environment::resolve;
use hello_world_api::guest::GuestId;
use hello_world_api::guest_api::{
    CreateGuestRequest, StructuredValueBoolInput, StructuredValueStringInput, UpdateGuestRequest,
};
use hello_world_api::guest_mapper::{
    apply_update_request, create_request_to_guest, guest_to_response,
};
use hello_world_api::guest_store::{delete_outcome, update_outcome};
use hello_world_api::guest_validation::{
    is_valid_email_format, parse_guest_id, validate_create_request, validate_update_request,
};
use hello_world_api::item::Item;
use hello_world_api::item_api::{domain_to_response, request_to_name, CreateItemRequest};
use hello_world_api::item_store::{domain_to_row, row_to_domain, ItemRow, MemoryItemStore};
use hello_world_api::publisher::hello_payload;
use hello_world_api::repository::{ItemRepository, RepositoryError};
use hello_world_api::text::decimal_string;
use hello_world_api::validation::validate_item_name;

fn string_input(value: &str) -> StructuredValueStringInput {
    StructuredValueStringInput {
        value: value.to_string(),
        from: None,
        updated_at: None,
        preferred_at: None,
    }
}

fn create_request() -> CreateGuestRequest {
    CreateGuestRequest {
        first_name: string_input("Ada"),
        last_name: string_input("Lovelace"),
        mail: None,
        phone: None,
        opt_outs: None,
    }
}

#[test]
fn item_name_rules() {
    assert!(validate_item_name("lamp").is_ok());
    assert!(validate_item_name("  lamp  ").is_ok());
    let err = validate_item_name("   ").unwrap_err();
    assert_eq!(err.message(), "name must be non-empty");
    let long = "x".repeat(501);
    let err = validate_item_name(&long).unwrap_err();
    assert_eq!(err.message(), "name must be at most 500 characters");
    assert!(validate_item_name(&"x".repeat(500)).is_ok());
}

#[test]
fn email_format_rules() {
    assert!(is_valid_email_format("ada@lovelace.org"));
    assert!(is_valid_email_format("  ada@lovelace.org  "));
    assert!(!is_valid_email_format(""));
    assert!(!is_valid_email_format("adalovelace.org"));
    assert!(!is_valid_email_format("@lovelace.org"));
    assert!(!is_valid_email_format("ada@lovelaceorg"));
    assert!(!is_valid_email_format("ada@love@lace.org"));
    let long = format!("a@{}.com", "b".repeat(260));
    assert!(!is_valid_email_format(&long));
}

#[test]
fn create_request_rules() {
    assert!(validate_create_request(&create_request()).is_ok());

    let mut req = create_request();
    req.first_name = string_input("   ");
    let err = validate_create_request(&req).unwrap_err();
    assert_eq!(
        err.message(),
        "first_name: value est obligatoire et ne peut pas \u{00ea}tre vide"
    );

    let mut req = create_request();
    let mut preferred = string_input("a@b.c");
    preferred.preferred_at = Some(1);
    let mut also_preferred = string_input("d@e.f");
    also_preferred.preferred_at = Some(2);
    req.mail = Some(vec![preferred, also_preferred]);
    let err = validate_create_request(&req).unwrap_err();
    assert_eq!(err.message(), "mail: au plus un email peut avoir preferred_at");

    let mut req = create_request();
    req.mail = Some(vec![string_input("a@b.c"), string_input("nonsense")]);
    let err = validate_create_request(&req).unwrap_err();
    assert_eq!(
        err.message(),
        "mail[1]: value doit \u{00ea}tre une adresse email valide"
    );

    let mut req = create_request();
    let mut one = string_input("111");
    one.preferred_at = Some(1);
    let mut two = string_input("222");
    two.preferred_at = Some(2);
    req.phone = Some(vec![one, two]);
    let err = validate_create_request(&req).unwrap_err();
    assert_eq!(
        err.message(),
        "phone: au plus un num\u{00e9}ro peut avoir preferred_at"
    );
}

#[test]
fn update_request_rules() {
    let empty = UpdateGuestRequest {
        first_name: None,
        last_name: None,
        mail: None,
        phone: None,
        opt_outs: None,
    };
    assert!(validate_update_request(&empty).is_ok());

    let bad_last = UpdateGuestRequest {
        first_name: None,
        last_name: Some(string_input("  ")),
        mail: None,
        phone: None,
        opt_outs: None,
    };
    let err = validate_update_request(&bad_last).unwrap_err();
    assert_eq!(
        err.message(),
        "last_name: value est obligatoire et ne peut pas \u{00ea}tre vide"
    );
}

#[test]
fn guest_id_round_trip() {
    let id = GuestId::random();
    let text = id.to_text();
    assert_eq!(text.len(), 36);
    let back = parse_guest_id(&text).unwrap();
    assert_eq!(back, id);

    let known = "67e55044-10b1-426f-9247-bb680e5fe0c8";
    let parsed = parse_guest_id(known).unwrap();
    assert_eq!(parsed.to_text(), known);

    let err = parse_guest_id("not-a-uuid").unwrap_err();
    assert_eq!(
        err.message(),
        "id invalide: 'not-a-uuid' n'est pas un UUID valide"
    );
}

#[test]
fn guest_mapping_round_trip() {
    let mut req = create_request();
    let mut mail = string_input("ada@lovelace.org");
    mail.from = Some("import".to_string());
    mail.updated_at = Some(1700000000000);
    req.mail = Some(vec![mail]);
    req.opt_outs = Some(vec![StructuredValueBoolInput {
        value: true,
        from: None,
        updated_at: Some(5),
        preferred_at: None,
    }]);
    let guest = create_request_to_guest(&req);
    assert_eq!(guest.first_name.value, "Ada");
    assert_eq!(guest.last_name.value, "Lovelace");
    assert_eq!(guest.mail.len(), 1);
    assert_eq!(guest.mail[0].value, "ada@lovelace.org");
    assert_eq!(guest.mail[0].from.as_deref(), Some("import"));
    assert_eq!(guest.mail[0].updated_at, 1700000000000);
    assert_eq!(guest.phone.len(), 0);
    assert_eq!(guest.opt_outs.len(), 1);
    assert!(guest.opt_outs[0].value);
    assert_eq!(guest.opt_outs[0].updated_at, 5);

    let response = guest_to_response(&guest);
    assert_eq!(response.id, guest.id);
    assert_eq!(response.first_name.value, "Ada");
    assert_eq!(response.mail.len(), 1);
    assert_eq!(response.mail[0].value, "ada@lovelace.org");
    assert_eq!(response.mail[0].updated_at, 1700000000000);
    assert_eq!(response.opt_outs.len(), 1);
    assert!(response.opt_outs[0].value);
}

#[test]
fn update_keeps_absent_fields() {
    let guest = create_request_to_guest(&create_request());
    let id = guest.id;
    let update = UpdateGuestRequest {
        first_name: Some(string_input("Grace")),
        last_name: None,
        mail: Some(vec![string_input("grace@hopper.org")]),
        phone: None,
        opt_outs: None,
    };
    let updated = apply_update_request(guest, &update);
    assert_eq!(updated.id, id);
    assert_eq!(updated.first_name.value, "Grace");
    assert_eq!(updated.last_name.value, "Lovelace");
    assert_eq!(updated.mail.len(), 1);
    assert_eq!(updated.mail[0].value, "grace@hopper.org");
    assert_eq!(updated.phone.len(), 0);
}

#[test]
fn memory_item_store_creates_and_finds() {
    let mut store = MemoryItemStore::default();
    let created = store
        .create(Item::new("id-1".to_string(), "lamp".to_string()))
        .unwrap();
    assert_eq!(created.id, "id-1");
    assert_eq!(created.name, "lamp");
    let found = store.get_by_id("id-1").unwrap().unwrap();
    assert_eq!(found.name, "lamp");
    assert!(store.get_by_id("id-2").unwrap().is_none());
    // creating under the same identifier replaces the row
    store
        .create(Item::new("id-1".to_string(), "chair".to_string()))
        .unwrap();
    let found = store.get_by_id("id-1").unwrap().unwrap();
    assert_eq!(found.name, "chair");
}

#[test]
fn item_mappers_carry_fields() {
    let item = Item::new("id-9".to_string(), "lamp".to_string());
    let response = domain_to_response(&item);
    assert_eq!(response.id, "id-9");
    assert_eq!(response.name, "lamp");
    let req = CreateItemRequest { name: "lamp".to_string() };
    assert_eq!(request_to_name(&req), "lamp");
    let row = domain_to_row(&item);
    assert_eq!(row, ItemRow::new("id-9".to_string(), "lamp".to_string()));
    let back = row_to_domain(&row);
    assert_eq!(back, item);
}

#[test]
fn api_errors_map_to_status_and_message() {
    let e = ApiError::from(validate_item_name("  ").unwrap_err());
    assert_eq!(e.status_code(), 400);
    assert_eq!(e.message(), "name must be non-empty");
    let e = ApiError::from(RepositoryError::NotFound("id-1".to_string()));
    assert_eq!(e.status_code(), 500);
    assert_eq!(e.message(), "not found: id-1");
    let e = ApiError::from(RepositoryError::Other("db gone".to_string()));
    assert_eq!(e.status_code(), 500);
    assert_eq!(e.message(), "db gone");
    let e = ApiError::NotFound;
    assert_eq!(e.status_code(), 404);
    assert_eq!(e.message(), "not found");
}

#[test]
fn environment_defaults_apply() {
    let v = resolve(None, None);
    assert_eq!(v.nats_url, "nats://localhost:4222");
    assert_eq!(v.database_url, "sqlite::memory:");
    let v = resolve(Some("nats://broker:4222".to_string()), None);
    assert_eq!(v.nats_url, "nats://broker:4222");
    assert_eq!(v.database_url, "sqlite::memory:");
}

#[test]
fn decimal_rendering_is_exact() {
    assert_eq!(decimal_string(0), "0");
    assert_eq!(decimal_string(7), "7");
    assert_eq!(decimal_string(25), "25");
    assert_eq!(decimal_string(1234), "1234");
    assert_eq!(decimal_string(1000000), "1000000");
}

#[test]
fn hello_payload_is_exact() {
    assert_eq!(hello_payload(1), b"hello guest #1".to_vec());
    assert_eq!(hello_payload(25), b"hello guest #25".to_vec());
}

#[test]
fn store_outcomes_follow_row_counts() {
    assert!(update_outcome(1, "id-1".to_string()).is_ok());
    match update_outcome(0, "id-1".to_string()) {
        Err(RepositoryError::NotFound(id)) => assert_eq!(id, "id-1"),
        other => panic!("expected NotFound, got {:?}", other),
    }
    let id = GuestId::random();
    assert_eq!(delete_outcome(1, id), Some(id));
    assert_eq!(delete_outcome(0, id), None);
}
