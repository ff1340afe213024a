use conselju::api_types::{ChatRequest, ChatResponse, HistoryParams, RecommendationRequest};
use conselju::config::{
    ApiConfig, CacheConfig, Config, DatabaseConfig, LocalizationConfig, LoggingConfig,
};
use conselju::gift::{
    build_search_query, parse_recommendations, relationship_to_string, event_type_to_string,
    EventType, GiftRequest, PriceRange, Relationship,
};
use conselju::i18n::I18nMessages;
use conselju::text::{str_eq, to_chars, u64_to_string};
use conselju::ws_types::{ChatMessage, MessageType};

#[test]
fn test_number_rendering() {
    assert_eq!(u64_to_string(0), "0");
    assert_eq!(u64_to_string(30000), "30000");
    assert_eq!(u64_to_string(18446744073709551615), "18446744073709551615");
}

#[test]
fn test_text_helpers() {
    assert!(str_eq("上司", "上司"));
    assert!(!str_eq("上司", "部下"));
    assert_eq!(to_chars("abc").len(), 3);
    assert_eq!(to_chars("予算").len(), 2);
}

#[test]
fn test_labels() {
    assert_eq!(relationship_to_string(&Relationship::Boss), "上司");
    assert_eq!(relationship_to_string(&Relationship::Friend), "友人");
    assert_eq!(event_type_to_string(&EventType::Wedding), "結婚祝い");
}

#[test]
fn test_search_query_text() {
    let req = GiftRequest {
        received_gift: "商品券".to_string(),
        price_range: PriceRange { min: 3000, max: 10000 },
        relationship: Relationship::Boss,
        event_type: EventType::Celebration,
        notes: None,
    };
    let q = build_search_query(&req);
    assert!(q.contains("商品券"));
    assert!(q.contains("3000円-10000円"));
    assert!(q.contains("上司"));
    assert!(q.contains("お祝い"));
}

#[test]
fn test_parse_recommendations_default() {
    let r = parse_recommendations("なんらかの自由文");
    assert_eq!(r.len(), 1);
    assert_eq!(r[0].name, "高級タオルセット");
    assert_eq!(r[0].price, 5000);
    assert_eq!(r[0].store, "高島屋");
}

#[test]
fn test_i18n_lookup() {
    let entries = vec![
        ("greeting".to_string(), "こんにちは".to_string()),
        ("farewell".to_string(), "さようなら".to_string()),
    ];
    let mut messages = I18nMessages::new("ja", entries);
    assert_eq!(messages.get_message("greeting"), Some("こんにちは"));
    assert_eq!(messages.get_message("missing"), None);

    let english = vec![("greeting".to_string(), "hello".to_string())];
    messages.change_locale("en", english).unwrap();
    assert_eq!(messages.get_message("greeting"), Some("hello"));
    assert_eq!(messages.get_message("farewell"), None);
}

#[test]
fn test_config_shape() {
    let config = Config {
        environment: "test".to_string(),
        server_port: 8080,
        database: DatabaseConfig {
            host: "localhost".to_string(),
            port: 5432,
            username: "test_user".to_string(),
            password: "test_pass".to_string(),
            database_name: "test_db".to_string(),
            max_connections: 10,
        },
        cache: CacheConfig { ttl_seconds: 3600, max_size: 1000, cleanup_interval: 300 },
        api: ApiConfig {
            perplexity_api_key: "test_key".to_string(),
            perplexity_api_url: "https://api.test.com".to_string(),
            timeout_seconds: 30,
            max_retries: 3,
        },
        localization: LocalizationConfig {
            default_language: "ja".to_string(),
            available_languages: vec!["ja".to_string(), "en".to_string()],
            fallback_language: "en".to_string(),
        },
        logging: LoggingConfig {
            level: "info".to_string(),
            file_path: "test.log".to_string(),
            rotation_size: 10485760,
            max_files: 5,
        },
    };
    assert!(config.is_usable());
    assert_eq!(config.server_port, 8080);
    assert_eq!(config.cache.ttl_seconds, 3600);
}

#[test]
fn test_transport_shapes() {
    let req = ChatRequest { user_id: "u".to_string(), message: "hi".to_string() };
    assert_eq!(req.user_id, "u");
    let resp = ChatResponse::of_text("ok".to_string());
    assert_eq!(resp.message, "ok");
    assert!(resp.recommendations.is_none());
    let params = HistoryParams { user_id: "u".to_string(), limit: Some(10) };
    assert_eq!(params.limit, Some(10));
    let rec = RecommendationRequest {
        gift_type: "お返し".to_string(),
        price_range: "3000-10000".to_string(),
        relationship: "上司".to_string(),
        event_type: "お祝い".to_string(),
        additional_notes: None,
    };
    assert_eq!(rec.relationship, "上司");
}

#[test]
fn test_ws_frames() {
    let typing = ChatMessage::typing("u1".to_string());
    assert_eq!(typing.message, "...");
    assert!(matches!(typing.message_type, MessageType::Typing));

    let answer = ChatMessage::bot_response("u1".to_string(), "reply".to_string());
    assert!(matches!(answer.message_type, MessageType::BotResponse));

    let err = ChatMessage::error_notice("無効なメッセージ形式です".to_string());
    assert_eq!(err.user_id, "system");
    assert!(matches!(err.message_type, MessageType::Error));
}
