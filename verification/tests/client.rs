use igdb_api_rust::apicalypse_builder::ApicalypseBuilder;
use igdb_api_rust::client::{
    endpoint_name, pluralize, ApiRequest, Client, IGDBApiError, JsonFailure, NextRequest,
    TokenRequest,
};
use igdb_api_rust::text::{ends_with, last_path_segment, str_eq, strip_suffix};

#[test]
fn test_new() {
    let client = Client::new("test_id", "test_secret");

    assert_eq!(client.client_id(), "test_id");
    assert_eq!(client.client_secret(), "test_secret");
    assert_eq!(client.client_access_token(), "");
}

#[test]
fn endpoint_name_games() {
    assert_eq!("games", endpoint_name("igdb_api_rust::igdb::Game"));
}

#[test]
fn endpoint_name_alternative_names() {
    assert_eq!(
        "alternative_names",
        endpoint_name("igdb_api_rust::igdb::AlternativeName")
    );
}

#[test]
fn endpoint_name_game_engine_logos() {
    assert_eq!(
        "game_engine_logos",
        endpoint_name("igdb_api_rust::igdb::GameEngineLogoResult")
    );
}

#[test]
fn endpoint_name_themes() {
    assert_eq!("themes", endpoint_name("igdb_api_rust::igdb::ThemeResult"));
}

#[test]
fn endpoint_name_people() {
    assert_eq!("people", endpoint_name("Person"));
    assert_eq!("people", endpoint_name("igdb_api_rust::igdb::Person"));
}

#[test]
fn endpoint_name_of_simple_names() {
    assert_eq!("games", endpoint_name("Game"));
    assert_eq!("alternative_names", endpoint_name("AlternativeName"));
    assert_eq!("game_engine_logos", endpoint_name("GameEngineLogoResult"));
    assert_eq!("themes", endpoint_name("ThemeResult"));
    assert_eq!("platform_version_companys", endpoint_name("PlatformVersionCompany"));
    assert_eq!("person_resultss", endpoint_name("PersonResults"));
}

#[test]
fn pluralize_drops_only_a_trailing_result() {
    assert_eq!("game_engine_logos", pluralize("game_engine_logo_result"));
    assert_eq!("games", pluralize("game"));
    assert_eq!("game_result_lists", pluralize("game_result_list"));
    assert_eq!("results", pluralize("result"));
    assert_eq!("s", pluralize("_result"));
    assert_eq!("s", pluralize(""));
}

#[test]
fn default_endpoint_is_production() {
    let client = Client::new("id", "secret");
    assert_eq!("https://api.igdb.com/v4", client.endpoint());
}

#[test]
fn with_endpoint_overrides_base_only() {
    let client = Client::new("id", "secret").with_endpoint("https://example.com/v4");
    assert_eq!("https://example.com/v4", client.endpoint());
    assert_eq!("id", client.client_id());
    assert_eq!("secret", client.client_secret());
    assert_eq!("", client.client_access_token());
}

#[test]
fn new_client_asks_for_a_token() {
    let client = Client::new("my id", "my secret");
    let request = client.check_access_token().expect("a token request");
    assert_eq!("https://id.twitch.tv/oauth2/token", request.url);
    assert_eq!("my id", request.client_id);
    assert_eq!("my secret", request.client_secret);
    assert_eq!("client_credentials", request.grant_type);
}

#[test]
fn cached_token_skips_the_token_request() {
    let mut client = Client::new("id", "secret");
    assert_eq!(Ok(()), client.store_access_token(Ok("abc123".to_string())));
    assert_eq!("abc123", client.client_access_token());
    assert!(client.check_access_token().is_none());
    assert!(client.check_access_token().is_none());
}

#[test]
fn failed_token_reply_is_an_auth_error() {
    let mut client = Client::new("id", "secret");
    assert_eq!(
        Err(IGDBApiError::AuthError(JsonFailure::KeyNotFound)),
        client.store_access_token(Err(JsonFailure::KeyNotFound))
    );
    assert_eq!(
        Err(IGDBApiError::AuthError(JsonFailure::InvalidEscapeSequence('q'))),
        client.store_access_token(Err(JsonFailure::InvalidEscapeSequence('q')))
    );
    assert_eq!("", client.client_access_token());
    assert_eq!("id", client.client_id());
    assert!(client.check_access_token().is_some());
}

#[test]
fn failed_token_reply_keeps_an_earlier_token() {
    let mut client = Client::new("id", "secret");
    assert_eq!(Ok(()), client.store_access_token(Ok("first".to_string())));
    assert!(client
        .store_access_token(Err(JsonFailure::UnexpectedToken))
        .is_err());
    assert_eq!("first", client.client_access_token());
}

#[test]
fn error_variants_differ() {
    assert_ne!(IGDBApiError::Request, IGDBApiError::ApiResponseDecodeError);
    assert_ne!(IGDBApiError::Unknown, IGDBApiError::Request);
    assert_ne!(
        IGDBApiError::AuthError(JsonFailure::EndOfStream),
        IGDBApiError::AuthError(JsonFailure::CannotParseString)
    );
}

fn data_of(step: NextRequest) -> ApiRequest {
    match step {
        NextRequest::Data(request) => request,
        NextRequest::Token(_) => panic!("a data request was expected"),
    }
}

fn token_of(step: NextRequest) -> TokenRequest {
    match step {
        NextRequest::Token(request) => request,
        NextRequest::Data(_) => panic!("a token request was expected"),
    }
}

fn client_with_token(token: &str) -> Client {
    let mut client = Client::new("id", "secret");
    assert_eq!(Ok(()), client.store_access_token(Ok(token.to_string())));
    client
}

#[test]
fn request_api_carries_token_and_headers() {
    let client = client_with_token("tok");
    let request = data_of(client.request_api("f name;", "https://example.com/x".to_string()));
    assert_eq!("https://example.com/x", request.url);
    assert_eq!("f name;", request.body);
    assert_eq!("tok", request.bearer_token);
    assert_eq!("id", request.client_id);
    assert_eq!("igdb-api-rust v 0.1.0", request.user_agent);
}

#[test]
fn request_without_token_asks_for_the_token_first() {
    let client = Client::new("my id", "my secret");
    let request = token_of(client.request_api("f name;", "https://example.com/x".to_string()));
    assert_eq!("https://id.twitch.tv/oauth2/token", request.url);
    assert_eq!("my id", request.client_id);
    assert_eq!("my secret", request.client_secret);
    assert_eq!("client_credentials", request.grant_type);
    let query = ApicalypseBuilder::default().limit(1);
    assert!(matches!(client.request("Game", &query), NextRequest::Token(_)));
    assert!(matches!(client.request_raw("Game", "l 1;"), NextRequest::Token(_)));
    assert!(matches!(client.request_count("Game", &query), NextRequest::Token(_)));
    assert!(matches!(
        client.request_count_raw("Game", "l 1;"),
        NextRequest::Token(_)
    ));
}

#[test]
fn token_reply_leads_to_the_data_request() {
    let mut client = Client::new("id", "secret");
    let request = client
        .request_api_with_token(
            Ok("fresh".to_string()),
            "f name;",
            "https://example.com/x".to_string(),
        )
        .expect("a data request");
    assert_eq!("https://example.com/x", request.url);
    assert_eq!("f name;", request.body);
    assert_eq!("fresh", request.bearer_token);
    assert_eq!("id", request.client_id);
    assert_eq!("fresh", client.client_access_token());
    assert!(client.check_access_token().is_none());
}

#[test]
fn failed_token_reply_ends_the_request() {
    let mut client = Client::new("id", "secret");
    let outcome = client.request_api_with_token(
        Err(JsonFailure::KeyNotFound),
        "f name;",
        "https://example.com/x".to_string(),
    );
    match outcome {
        Err(error) => assert_eq!(IGDBApiError::AuthError(JsonFailure::KeyNotFound), error),
        Ok(_) => panic!("no data request may follow a failed token reply"),
    }
    assert_eq!("", client.client_access_token());
    assert!(client.check_access_token().is_some());
}

#[test]
fn request_targets_the_data_endpoint() {
    let client = client_with_token("tok");
    let query = ApicalypseBuilder::default().filter("id > 1337").limit(55);
    let request = data_of(client.request("igdb_api_rust::igdb::GameResult", &query));
    assert_eq!("https://api.igdb.com/v4/games", request.url);
    assert_eq!("w id > 1337;l 55;", request.body);
    assert_eq!("tok", request.bearer_token);
}

#[test]
fn request_raw_targets_the_data_endpoint() {
    let client = client_with_token("tok").with_endpoint("https://proxy.test/v4");
    let request = data_of(client.request_raw("Game", "fields name; limit 5;"));
    assert_eq!("https://proxy.test/v4/games", request.url);
    assert_eq!("fields name; limit 5;", request.body);
}

#[test]
fn request_count_targets_the_count_endpoint() {
    let client = client_with_token("tok").with_endpoint("https://proxy.test/v4");
    let query = ApicalypseBuilder::default().filter("id > 1337");
    let request = data_of(client.request_count("Game", &query));
    assert_eq!("https://proxy.test/v4/games/count", request.url);
    assert_eq!("w id > 1337;", request.body);
}

#[test]
fn request_count_raw_targets_the_count_endpoint() {
    let client = client_with_token("tok");
    let request = data_of(client.request_count_raw("Person", "w id > 1337"));
    assert_eq!("https://api.igdb.com/v4/people/count", request.url);
    assert_eq!("w id > 1337", request.body);
}

#[test]
fn result_suffix_gives_the_same_endpoint() {
    assert_eq!(endpoint_name("Theme"), endpoint_name("ThemeResult"));
    assert_eq!(endpoint_name("Game"), endpoint_name("GameResult"));
    assert_eq!(pluralize("theme"), pluralize("theme_result"));
}

#[test]
fn endpoint_urls() {
    let client = Client::new("id", "secret");
    assert_eq!(
        "https://api.igdb.com/v4/alternative_names",
        client.endpoint_url("AlternativeName")
    );
    assert_eq!(
        "https://api.igdb.com/v4/themes/count",
        client.endpoint_count_url("ThemeResult")
    );
}

#[test]
fn last_path_segment_follows_the_last_separator() {
    assert_eq!("C", last_path_segment("a::b::C"));
    assert_eq!("Game", last_path_segment("Game"));
    assert_eq!("", last_path_segment(""));
    assert_eq!("", last_path_segment("abc::"));
    assert_eq!(":b", last_path_segment("a:::b"));
    assert_eq!("a:b", last_path_segment("a:b"));
    assert_eq!("é", last_path_segment("ü::é"));
}

#[test]
fn suffix_helpers() {
    assert!(ends_with("theme_result", "_result"));
    assert!(!ends_with("theme_results", "_result"));
    assert!(!ends_with("ult", "_result"));
    assert!(ends_with("abc", ""));
    assert_eq!("theme", strip_suffix("theme_result", "_result"));
    assert_eq!("theme", strip_suffix("theme", "_result"));
    assert!(str_eq("Person", "Person"));
    assert!(!str_eq("Person", "person"));
    assert!(!str_eq("Person", "Persons"));
}
