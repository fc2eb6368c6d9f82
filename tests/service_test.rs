// Tokens, sessions, bookings, ownership, forms, update statements and settings

use privatechefspace::access::{
    delete_menu_item, deleted_or, extract_user_id, extract_user_id_from_session, found_or,
    require_owner, session_user, update_menu_item, validate_bearer_at,
};
use privatechefspace::auth::{check_credentials, hash_password, login_fields, register_fields};
use privatechefspace::booking::{
    availability_range_from, booking_price, charged_minutes, day_availability,
    get_chef_availability, plan_booking, BookedTime, ExistingBooking, TimeOfDay,
};
use privatechefspace::config::{Config, EnvSettings, JwtConfig};
use privatechefspace::error::AppError;
use privatechefspace::forms::{
    comma_list, flash_location, flash_text, form_number, profile_slug, read_chef_form, read_menu_form,
    read_menu_id, read_menu_item_form,
};
use privatechefspace::models::{CreateMenuItem, UpdateMenuItem};
use privatechefspace::queries::{
    update_chef_profile_query, update_menu_query, ChefUpdateColumns, MenuUpdateColumns,
};
use privatechefspace::roles::Role;
use privatechefspace::session::{
    decode_session, encode_session, get_session_data, new_session_id, session_key, SessionData,
};
use privatechefspace::token::{
    create_refresh_token, create_token, decode_token, sign_claims, verify_token, verify_token_at,
    Claims, TokenError,
};

const USER: &str = "6f1c2a34-9b7d-4e21-8c55-0a1b2c3d4e5f";

fn jwt_config() -> JwtConfig {
    JwtConfig { secret: "SECRET-REDACTED".to_string(), expiration: 3600, refresh_expiration: 86400 }
}

fn at(hour: u32) -> TimeOfDay {
    TimeOfDay { secs: hour * 3600, nanos: 0 }
}

#[test]
fn token_round_trip_yields_subject_then_expires() {
    let claims = Claims::issued_at(USER.to_string(), 1_700_000_000, 3600);
    assert_eq!(claims.exp, 1_700_003_600);
    let token = sign_claims(&claims, "k1").unwrap();
    let read = verify_token_at(&token, "k1", 1_700_000_000).unwrap();
    assert_eq!(read.sub, USER);
    assert_eq!(read.exp, 1_700_003_600);
    assert_eq!(read.iat, 1_700_000_000);
    assert_eq!(verify_token_at(&token, "k1", 1_700_003_599).unwrap().sub, USER);
    assert_eq!(verify_token_at(&token, "k1", 1_700_003_600).unwrap_err(), TokenError::Expired);
    assert_eq!(verify_token_at(&token, "k1", 1_800_000_000).unwrap_err(), TokenError::Expired);
}

#[test]
fn token_with_other_secret_or_garbage_is_refused() {
    let claims = Claims::issued_at(USER.to_string(), 1_700_000_000, 3600);
    let token = sign_claims(&claims, "k1").unwrap();
    assert_eq!(decode_token(&token, "k2").unwrap_err(), TokenError::InvalidSignature);
    assert_eq!(decode_token("not-a-token", "k1").unwrap_err(), TokenError::Malformed);
    assert_eq!(verify_token("not-a-jwt", "k1").unwrap_err(), TokenError::Malformed);
    assert_eq!(verify_token_at("a.b", "k1", 0).unwrap_err(), TokenError::Malformed);
}

#[test]
fn issued_tokens_verify_now() {
    let config = jwt_config();
    let access = create_token(USER.to_string(), &config).unwrap();
    let refresh = create_refresh_token(USER.to_string(), &config).unwrap();
    let a = verify_token(&access, &config.secret).unwrap();
    let r = verify_token(&refresh, &config.secret).unwrap();
    assert_eq!(a.sub, USER);
    assert_eq!(a.exp - a.iat, 3600);
    assert_eq!(r.exp - r.iat, 86400);
    let c = Claims::new("u".to_string(), 60);
    assert_eq!(c.exp - c.iat, 60);
}

#[test]
fn token_issued_with_no_lifetime_is_expired_at_once() {
    let claims = Claims::issued_at(USER.to_string(), 1_700_000_000, 0);
    let token = sign_claims(&claims, "k").unwrap();
    assert_eq!(verify_token_at(&token, "k", 1_700_000_000).unwrap_err(), TokenError::Expired);
}

#[test]
fn bearer_identity_is_the_token_subject() {
    let claims = Claims::issued_at(USER.to_string(), 100, 50);
    let token = sign_claims(&claims, "k").unwrap();
    assert_eq!(validate_bearer_at(&token, "k", 120).unwrap(), 0x6f1c2a34_9b7d_4e21_8c55_0a1b2c3d4e5f);
    let err = validate_bearer_at(&token, "k", 150).unwrap_err();
    assert_eq!(err.to_string(), "Unauthorized: Invalid or expired token");
    let odd = sign_claims(&Claims::issued_at("not-an-id".to_string(), 100, 50), "k").unwrap();
    let err = validate_bearer_at(&odd, "k", 120).unwrap_err();
    assert_eq!(err.to_string(), "Unauthorized: Invalid user ID in token");
}

#[test]
fn session_create_then_read_returns_the_record() {
    let data = SessionData::for_user(0x6f1c2a34_9b7d_4e21_8c55_0a1b2c3d4e5f, "chef@example.com", Role::Chef);
    assert_eq!(data.role, "chef");
    let stored = encode_session(&data).unwrap();
    assert!(stored.contains(USER));
    let back = get_session_data(Some(stored.clone())).unwrap().unwrap();
    assert_eq!(back.user_id, data.user_id);
    assert_eq!(back.email, "chef@example.com");
    assert_eq!(back.role, "chef");
    let direct = decode_session(&stored).unwrap();
    assert_eq!(direct.email, data.email);
}

#[test]
fn session_absent_reads_none_and_bad_blob_is_internal() {
    assert!(get_session_data(None).unwrap().is_none());
    let err = get_session_data(Some("{not json".to_string())).unwrap_err();
    assert!(matches!(err, AppError::InternalError(_)));
    assert_eq!(err.status_code(), 500);
    assert_eq!(err.client_message(), "Internal server error");
    let err = decode_session("{\"user_id\":\"nope\",\"email\":\"e\",\"role\":\"r\"}").unwrap_err();
    assert!(matches!(err, AppError::InternalError(_)));
}

#[test]
fn session_keys_and_ids() {
    assert_eq!(session_key("abc"), "session:abc");
    let a = new_session_id();
    let b = new_session_id();
    assert_eq!(a.len(), 36);
    assert!(uuid::Uuid::parse_str(&a).is_ok());
    assert_ne!(a, b);
}

#[test]
fn session_extraction_outcomes() {
    let d = SessionData::for_user(7, "e@x", Role::Diner);
    assert_eq!(extract_user_id_from_session(true, Ok(Some(d.clone()))).unwrap(), 7);
    let e = extract_user_id_from_session(false, Ok(Some(d.clone()))).unwrap_err();
    assert_eq!(e.to_string(), "Unauthorized: No session found. Please log in.");
    let e = extract_user_id_from_session(true, Ok(None)).unwrap_err();
    assert_eq!(e.to_string(), "Unauthorized: Invalid or expired session. Please log in again.");
    let e = extract_user_id_from_session(true, Err(AppError::internal("x"))).unwrap_err();
    assert_eq!(e.to_string(), "Unauthorized: Session lookup failed");
    assert_eq!(session_user(true, Ok(Some(d))).unwrap(), 7);
    assert_eq!(session_user(false, Ok(None)).unwrap_err().to_string(), "Unauthorized: Not authenticated");
    assert_eq!(session_user(true, Ok(None)).unwrap_err().to_string(), "Unauthorized: Invalid or expired session");
    assert_eq!(session_user(true, Err(AppError::not_found("u"))).unwrap_err().to_string(), "Not found: u");
}

#[test]
fn booking_price_uses_minimum_hours() {
    assert_eq!(charged_minutes(2, 60), 120);
    assert_eq!(charged_minutes(2, 300), 300);
    // a rate of 100 is 10000 cents: 100 * max(2, 1) * 4 = 800, that is 80000 cents,
    // counted in sixtieths of a cent
    assert_eq!(booking_price(Some(10_000), 2, 60, 4), Some(80_000 * 60));
    assert_eq!(booking_price(None, 2, 180, 2), Some(60_000 * 60));
    // two and a half hours at a minimum of one: 100 * 2.5 * 1 = 250
    assert_eq!(booking_price(Some(10_000), 1, 150, 1), Some(25_000 * 60));
    assert_eq!(booking_price(Some(i64::MAX), 1, i64::MAX, i32::MAX), None);
}

#[test]
fn second_booking_at_same_slot_is_refused() {
    let day = 739_000;
    let existing = vec![ExistingBooking { date: day, time: at(18), status: "pending".to_string() }];
    let err = plan_booking(Some((Some(10_000), 2)), &existing, day, at(18), 60, 4).unwrap_err();
    assert!(matches!(err, AppError::ValidationError(_)));
    assert_eq!(err.to_string(), "Validation error: Time slot is already booked");
    assert_eq!(err.status_code(), 400);
    assert_eq!(plan_booking(Some((Some(10_000), 2)), &existing, day, at(14), 60, 4).unwrap(), 80_000 * 60);
    assert_eq!(plan_booking(Some((None, 2)), &existing, day + 1, at(18), 180, 1).unwrap(), 30_000 * 60);
}

#[test]
fn cancelled_booking_frees_its_slot_and_missing_chef_is_not_found() {
    let day = 739_000;
    let existing = vec![ExistingBooking { date: day, time: at(18), status: "cancelled".to_string() }];
    assert!(plan_booking(Some((None, 2)), &existing, day, at(18), 60, 1).is_ok());
    let confirmed = vec![ExistingBooking { date: day, time: at(10), status: "confirmed".to_string() }];
    assert!(plan_booking(Some((None, 2)), &confirmed, day, at(10), 60, 1).is_err());
    let err = plan_booking(None, &existing, day, at(18), 60, 1).unwrap_err();
    assert_eq!(err.to_string(), "Not found: Chef not found");
    assert_eq!(err.status_code(), 404);
    let err = plan_booking(Some((Some(i64::MAX), 1)), &existing, day, at(10), i64::MAX, i32::MAX).unwrap_err();
    assert_eq!(err.to_string(), "Validation error: Booking price out of range");
}

#[test]
fn availability_drops_booked_slots_day_by_day() {
    let bookings = vec![
        BookedTime { date: 10, time: at(14) },
        BookedTime { date: 11, time: at(10) },
        BookedTime { date: 11, time: at(14) },
        BookedTime { date: 11, time: at(18) },
    ];
    let days = get_chef_availability(&bookings, 10, 12);
    assert_eq!(days.len(), 3);
    assert_eq!(days[0].date, 10);
    assert_eq!(days[0].available_times, vec!["10:00", "18:00"]);
    assert!(days[0].available);
    assert!(days[1].available_times.is_empty());
    assert!(!days[1].available);
    assert_eq!(days[2].available_times, vec!["10:00", "14:00", "18:00"]);
    assert!(get_chef_availability(&bookings, 12, 10).is_empty());
    let one = day_availability(&bookings, 10);
    assert_eq!(one.available_times, vec!["10:00", "18:00"]);
}

#[test]
fn availability_range_defaults() {
    // 2024-03-01 is day 738946 counted from 0001-01-01 as day 1
    assert_eq!(availability_range_from(Some("2024-03-01"), None, 5), (738_946, 738_976));
    assert_eq!(availability_range_from(None, None, 700), (700, 730));
    assert_eq!(availability_range_from(Some("bad"), Some("2024-03-02"), 700), (700, 738_947));
}

#[test]
fn menu_item_update_through_unowned_menu_is_unauthorized() {
    let payload = UpdateMenuItem {
        name: Some("Soup".to_string()),
        description: None,
        course_type: None,
        image_url: None,
        is_featured: Some(true),
        display_order: Some(1),
        quantity: Some(3),
    };
    let err = update_menu_item(None, 5, Some(5), &payload).unwrap_err();
    assert!(matches!(err, AppError::Unauthorized(_)));
    assert_eq!(err.status_code(), 401);
    assert!(matches!(update_menu_item(None, 5, None, &payload).unwrap_err(), AppError::Unauthorized(_)));
    assert_eq!(update_menu_item(Some(42), 5, Some(5), &payload).unwrap(), 42);
    let err = update_menu_item(Some(42), 5, Some(6), &payload).unwrap_err();
    assert_eq!(err.to_string(), "Not found: Menu item not found");
}

#[test]
fn menu_item_delete_needs_the_item_in_an_owned_menu() {
    assert_eq!(delete_menu_item(Some(1), 5, Some(5)).unwrap(), 1);
    assert_eq!(delete_menu_item(None, 5, Some(5)).unwrap_err().status_code(), 401);
    assert_eq!(delete_menu_item(Some(1), 5, Some(7)).unwrap_err().status_code(), 404);
    assert_eq!(delete_menu_item(Some(1), 5, None).unwrap_err().status_code(), 404);
}

#[test]
fn ownership_and_lookup_outcomes() {
    assert_eq!(require_owner(Some(3), "no").unwrap(), 3);
    assert_eq!(require_owner(None, "User is not a chef").unwrap_err().to_string(), "Unauthorized: User is not a chef");
    assert_eq!(found_or(Some("row"), "Menu not found").unwrap(), "row");
    assert_eq!(found_or::<u8>(None, "Menu not found").unwrap_err().to_string(), "Not found: Menu not found");
    assert!(deleted_or(1, "Example not found").is_ok());
    assert_eq!(deleted_or(0, "Example not found").unwrap_err().status_code(), 404);
    assert_eq!(extract_user_id(Some(9)).unwrap(), 9);
    assert_eq!(extract_user_id(None).unwrap_err().to_string(), "Unauthorized: User not authenticated");
}

#[test]
fn error_statuses_and_client_messages() {
    let cases = [
        (AppError::validation("bad"), 400, "Validation error: bad"),
        (AppError::unauthorized("no"), 401, "Unauthorized: no"),
        (AppError::not_found("gone"), 404, "Not found: gone"),
        (AppError::internal("oops"), 500, "Internal server error"),
    ];
    for (e, status, shown) in cases {
        assert_eq!(e.status_code(), status);
        assert_eq!(e.client_message(), shown);
    }
    assert_eq!(AppError::internal("oops").to_string(), "Internal error: oops");
    let db = AppError::from(sqlx::Error::RowNotFound);
    assert_eq!(db.status_code(), 500);
    assert_eq!(db.client_message(), "Database error occurred");
    assert!(db.to_string().starts_with("Database error: "));
}

#[test]
fn password_check_after_hashing() {
    let hash = hash_password("hunter2").unwrap();
    assert!(check_credentials(Some(&hash), "hunter2").is_ok());
    let err = check_credentials(Some(&hash), "hunter3").unwrap_err();
    assert_eq!(err.to_string(), "Unauthorized: Invalid credentials");
    assert_eq!(check_credentials(None, "hunter2").unwrap_err().to_string(), "Unauthorized: Invalid credentials");
    assert!(matches!(check_credentials(Some("not-a-hash"), "x").unwrap_err(), AppError::BcryptError(_)));
}

#[test]
fn login_and_register_fields() {
    assert_eq!(login_fields(Some("a@b"), Some("pw")).unwrap(), ("a@b", "pw"));
    assert_eq!(login_fields(None, Some("pw")).unwrap_err().to_string(), "Validation error: Email is required");
    assert_eq!(login_fields(Some("a@b"), None).unwrap_err().to_string(), "Validation error: Password is required");
    assert_eq!(register_fields(Some("a@b"), Some("pw"), Some("pw")).unwrap(), ("a@b", "pw"));
    assert_eq!(
        register_fields(Some("a@b"), Some("pw"), None).unwrap_err().to_string(),
        "Validation error: Confirm password is required"
    );
    assert_eq!(
        register_fields(Some("a@b"), Some("pw"), Some("px")).unwrap_err().to_string(),
        "Validation error: Passwords don't match"
    );
}

#[test]
fn chef_form_trims_and_splits() {
    let f = read_chef_form(Some("  Julia Child "), Some(" "), Some(" Cooks "), None, Some(" French, ,Italian ,")).unwrap();
    assert_eq!(f.chef_name, "Julia Child");
    assert_eq!(f.business_name, None);
    assert_eq!(f.bio, Some("Cooks".to_string()));
    assert_eq!(f.location, None);
    assert_eq!(f.cuisine_types, Some(vec!["French".to_string(), "Italian".to_string()]));
    assert_eq!(f.slug, "julia-child");
    assert_eq!(f.minimum_hours, 2);
    assert_eq!(read_chef_form(Some("   "), None, None, None, None).err().unwrap(), "Chef name is required");
    assert_eq!(comma_list(Some(" , ,")), None);
    assert_eq!(profile_slug("Crème Brûlée Co."), "creme-brulee-co");
}

#[test]
fn menu_and_item_forms() {
    let m = read_menu_form(Some(" Tasting "), Some(""), Some(" 6 "), Some("Thai")).unwrap();
    assert_eq!(m.name, "Tasting");
    assert_eq!(m.description, None);
    assert_eq!(m.minimum_guests, 6);
    assert_eq!(m.cuisine_type, Some("Thai".to_string()));
    assert_eq!(read_menu_form(Some("x"), None, Some("many"), None).unwrap().minimum_guests, 2);
    assert_eq!(read_menu_form(None, None, None, None).err().unwrap(), "Menu name is required");
    let i = read_menu_item_form(Some("Soup"), None, Some(" starter "), Some("-3"), Some("on")).unwrap();
    assert_eq!(i.quantity, None);
    assert!(i.is_featured);
    assert_eq!(i.course_type, Some("starter".to_string()));
    assert_eq!(i.display_order, 0);
    let i = read_menu_item_form(Some("Soup"), None, None, Some(" 4"), Some("off")).unwrap();
    assert_eq!(i.quantity, Some(4));
    assert!(!i.is_featured);
    assert_eq!(read_menu_item_form(Some(""), None, None, None, None).err().unwrap(), "Item name is required");
    let c = CreateMenuItem {
        name: "Soup".to_string(),
        description: None,
        course_type: None,
        image_url: None,
        is_featured: None,
        display_order: None,
        quantity: None,
    };
    assert!(!c.featured_or_default());
    assert_eq!(c.display_order_or_default(), 0);
}

#[test]
fn flash_messages_are_url_encoded_and_decoded() {
    assert_eq!(
        flash_location(true, "Chef name is required"),
        "/chef-dashboard?error=Chef%20name%20is%20required"
    );
    assert_eq!(flash_location(false, "Menu created successfully!"), "/chef-dashboard?success=Menu%20created%20successfully%21");
    assert_eq!(flash_text("Menu%20created%21"), "Menu created!");
    assert_eq!(flash_text("%FF"), "%FF");
}

#[test]
fn chef_update_statement_numbers_present_fields() {
    let none = ChefUpdateColumns {
        chef_name: false,
        business_name: false,
        bio: false,
        cuisine_types: false,
        location: false,
        phone: false,
        email: false,
        website: false,
        profile_image_url: false,
        cover_image_url: false,
        hourly_rate: false,
        minimum_hours: false,
        travel_radius: false,
        is_active: false,
    };
    assert_eq!(update_chef_profile_query(&none).unwrap_err().to_string(), "Validation error: No fields to update");
    let some = ChefUpdateColumns { bio: true, hourly_rate: true, ..none };
    assert_eq!(
        update_chef_profile_query(&some).unwrap(),
        "UPDATE chefs SET bio = $1, hourly_rate = $2, updated_at = NOW() WHERE user_id = $3 RETURNING *"
    );
    let contact = ChefUpdateColumns { phone: true, website: true, travel_radius: true, ..none };
    assert_eq!(
        update_chef_profile_query(&contact).unwrap(),
        "UPDATE chefs SET phone = $1, website = $2, travel_radius = $3, updated_at = NOW() WHERE user_id = $4 RETURNING *"
    );
    let all = ChefUpdateColumns {
        chef_name: true,
        business_name: true,
        bio: true,
        cuisine_types: true,
        location: true,
        phone: true,
        email: true,
        website: true,
        profile_image_url: true,
        cover_image_url: true,
        hourly_rate: true,
        minimum_hours: true,
        travel_radius: true,
        is_active: true,
    };
    assert_eq!(
        update_chef_profile_query(&all).unwrap(),
        "UPDATE chefs SET chef_name = $1, business_name = $2, bio = $3, cuisine_types = $4, location = $5, \
         phone = $6, email = $7, website = $8, profile_image_url = $9, cover_image_url = $10, hourly_rate = $11, \
         minimum_hours = $12, travel_radius = $13, is_active = $14, updated_at = NOW() WHERE user_id = $15 RETURNING *"
    );
}

#[test]
fn menu_update_statement_numbers_present_fields() {
    let none = MenuUpdateColumns {
        name: false,
        description: false,
        price_per_person: false,
        minimum_guests: false,
        cuisine_type: false,
        dietary_options: false,
        duration_hours: false,
        is_active: false,
    };
    assert_eq!(update_menu_query(&none), "UPDATE menus SET updated_at = NOW() WHERE id = $1 RETURNING *");
    let c = MenuUpdateColumns { description: true, minimum_guests: true, is_active: true, ..none };
    assert_eq!(
        update_menu_query(&c),
        "UPDATE menus SET description = $1, minimum_guests = $2, is_active = $3, updated_at = NOW() WHERE id = $4 RETURNING *"
    );
}

#[test]
fn settings_defaults_and_errors() {
    let env = EnvSettings {
        server_host: None,
        server_port: None,
        database_url: Some("postgres://db"),
        database_max_connections: Some("x"),
        redis_url: None,
        jwt_secret: Some("s"),
        jwt_expiration: Some("60"),
        jwt_refresh_expiration: None,
    };
    let c = Config::from_settings(&env).unwrap();
    assert_eq!(c.server.host, "127.0.0.1");
    assert_eq!(c.server.port, 8080);
    assert_eq!(c.database.url, "postgres://db");
    assert_eq!(c.database.max_connections, 10);
    assert_eq!(c.redis.url, "redis://127.0.0.1:6379");
    assert_eq!(c.jwt.expiration, 60);
    assert_eq!(c.jwt.refresh_expiration, 86400);
    let bad_port = EnvSettings { server_port: Some("99999"), ..env };
    assert_eq!(Config::from_settings(&bad_port).err().unwrap(), "Invalid SERVER_PORT");
    let no_db = EnvSettings { database_url: None, ..env };
    assert_eq!(Config::from_settings(&no_db).err().unwrap(), "DATABASE_URL must be set");
    let no_secret = EnvSettings { jwt_secret: None, ..env };
    assert_eq!(Config::from_settings(&no_secret).err().unwrap(), "JWT_SECRET must be set");
}

#[test]
fn menu_id_field_is_required_and_a_uuid() {
    assert_eq!(read_menu_id(Some(USER)).unwrap(), 0x6f1c2a34_9b7d_4e21_8c55_0a1b2c3d4e5f);
    assert_eq!(read_menu_id(None).unwrap_err().to_string(), "Validation error: Menu ID is required");
    assert_eq!(read_menu_id(Some("12")).unwrap_err().to_string(), "Validation error: Invalid menu ID");
}

#[test]
fn form_numbers_follow_the_integer_grammar() {
    assert_eq!(form_number(Some(" +7 ")), Some(7));
    assert_eq!(form_number(Some("-3")), Some(-3));
    assert_eq!(form_number(Some("3.5")), None);
    assert_eq!(form_number(Some("")), None);
    assert_eq!(form_number(Some("2147483648")), None);
    assert_eq!(form_number(None), None);
}
