use social_api::clock::{timestamp_text, Timestamp};
use social_api::config::{Config, EnvVarError};
use social_api::graphql::dataloader::HasLikeInput;
use social_api::graphql::post::like_lookup_key;
use social_api::handlers::posts::store_media;
use social_api::model::auth::{filter_user, User};
use social_api::text::{extension_of, first_segment_of, last_segment_of, text_eq, trim};

fn uuid_to_string(id: u128) -> String {
    let user = User {
        id,
        username: String::new(),
        name: String::new(),
        email: String::new(),
        photo: None,
        password: String::new(),
        created_at: None,
        updated_at: None,
    };
    filter_user(user).id
}

fn parse_uuid(s: &str) -> Option<u128> {
    like_lookup_key(0, s).map(|k: HasLikeInput| k.user_id)
}

fn utc_text(secs: i64, nanos: u32) -> Option<String> {
    timestamp_text(Some(Timestamp { secs, nanos }))
}

fn new_uuid_v4() -> u128 {
    let stored = store_media("image", Some("x.png")).unwrap();
    parse_uuid(&stored.link["image/".len().."image/".len() + 36]).unwrap()
}

const ID: u128 = 0x67e5_5044_10b1_426f_9247_bb68_0e5f_e0c8;

#[test]
fn uuid_text_is_hyphenated_lower_case() {
    assert_eq!(uuid_to_string(ID), "67e55044-10b1-426f-9247-bb680e5fe0c8");
    assert_eq!(uuid_to_string(0), "00000000-0000-0000-0000-000000000000");
}

#[test]
fn uuid_parses_every_accepted_shape() {
    assert_eq!(parse_uuid("67e55044-10b1-426f-9247-bb680e5fe0c8"), Some(ID));
    assert_eq!(parse_uuid("67E55044-10B1-426F-9247-BB680E5FE0C8"), Some(ID));
    assert_eq!(parse_uuid("67e5504410b1426f9247bb680e5fe0c8"), Some(ID));
    assert_eq!(parse_uuid("{67e55044-10b1-426f-9247-bb680e5fe0c8}"), Some(ID));
    assert_eq!(parse_uuid("URN:uuid:67e55044-10b1-426f-9247-bb680e5fe0c8"), Some(ID));
}

#[test]
fn uuid_rejects_malformed_text() {
    assert_eq!(parse_uuid(""), None);
    assert_eq!(parse_uuid("67e55044-10b1-426f-9247-bb680e5fe0cg"), None);
    assert_eq!(parse_uuid("67e55044+10b1-426f-9247-bb680e5fe0c8"), None);
    assert_eq!(parse_uuid(" 67e55044-10b1-426f-9247-bb680e5fe0c8"), None);
    assert_eq!(parse_uuid("[67e55044-10b1-426f-9247-bb680e5fe0c8]"), None);
}

#[test]
fn uuid_text_round_trips() {
    for u in [0u128, 1, ID, u128::MAX, 0x0123_4567_89ab_cdef_fedc_ba98_7654_3210] {
        assert_eq!(parse_uuid(&uuid_to_string(u)), Some(u));
    }
}

#[test]
fn fresh_uuid_is_version_four() {
    let a = new_uuid_v4();
    let b = new_uuid_v4();
    assert_eq!((a >> 76) & 0xf, 4);
    assert_eq!((a >> 62) & 0x3, 2);
    assert_eq!((b >> 76) & 0xf, 4);
    assert_ne!(a, b);
}

#[test]
fn trim_strips_unicode_white_space() {
    assert_eq!(trim("  abc \t\n"), "abc");
    assert_eq!(trim("\u{3000}x y\u{2003}"), "x y");
    assert_eq!(trim("   "), "");
    assert_eq!(trim(""), "");
    assert_eq!(trim(&trim("  a  ")), trim("  a  "));
}

#[test]
fn dot_segments() {
    assert_eq!(first_segment_of("abc.tar.gz"), "abc");
    assert_eq!(first_segment_of("abc"), "abc");
    assert_eq!(first_segment_of(".hidden"), "");
    assert_eq!(last_segment_of("photo.final.png"), "png");
    assert_eq!(last_segment_of("noext"), "noext");
    assert_eq!(last_segment_of("trailing."), "");
}

#[test]
fn extension_follows_path_rules() {
    assert_eq!(extension_of("a.b.c").as_deref(), Some("c"));
    assert_eq!(extension_of("foo.").as_deref(), Some(""));
    assert_eq!(extension_of(".bashrc"), None);
    assert_eq!(extension_of("plain"), None);
    assert_eq!(extension_of(".tar.gz").as_deref(), Some("gz"));
}

#[test]
fn text_equality() {
    assert!(text_eq("héllo", "héllo"));
    assert!(!text_eq("a", "A"));
}

#[test]
fn chrono_text_of_instants() {
    assert_eq!(utc_text(0, 0).as_deref(), Some("1970-01-01 00:00:00 UTC"));
    assert_eq!(utc_text(1_700_000_000, 500_000_000).as_deref(), Some("2023-11-14 22:13:20.500 UTC"));
    assert_eq!(utc_text(i64::MAX, 0), None);
    assert_eq!(timestamp_text(None), None);
    assert_eq!(timestamp_text(Some(Timestamp { secs: 86_400, nanos: 0 })).as_deref(), Some("1970-01-02 00:00:00 UTC"));
}

#[test]
fn config_takes_both_variables() {
    let c = Config::init(Ok("postgres://db".to_string()), Ok("s3cret".to_string())).unwrap();
    assert_eq!(c.db_url, "postgres://db");
    assert_eq!(c.jwt_secret, "s3cret");
}

#[test]
fn config_reports_the_first_missing_variable() {
    assert_eq!(
        Config::init(Err(EnvVarError::NotPresent), Err(EnvVarError::NotUnicode(vec![0xff]))).err(),
        Some(EnvVarError::NotPresent)
    );
    assert_eq!(
        Config::init(Ok("x".to_string()), Err(EnvVarError::NotUnicode(vec![0x66, 0xff]))).err(),
        Some(EnvVarError::NotUnicode(vec![0x66, 0xff]))
    );
    assert_eq!(
        Config::init(Err(EnvVarError::NotUnicode(vec![0xc3])), Ok("s".to_string())).err(),
        Some(EnvVarError::NotUnicode(vec![0xc3]))
    );
}
