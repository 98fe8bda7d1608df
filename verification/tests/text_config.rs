use mapauth::config::Config;
use mapauth::errors::ApiError;
use mapauth::maps::{delete_svg_outcome, new_svg_item_from_request, paginate, prefix_of, SvgRequest};
use mapauth::status_colors::{get_all_colors_response, StatusColor, StatusColorResponse};
use mapauth::text::{parse_bool, parse_usize, split_trim_commas, str_eq, trim_str, u64_to_string};
use mapauth::zoho_api::{
    classify_lookup_error, collect_product_page, map_access_url, oauth_token_url,
    products_page_url, products_to_zoho, select_map_access, token_request_form, Product,
    ZohoMapAccess, ZohoProduct,
};

#[test]
fn u64_to_string_writes_decimal() {
    assert_eq!(u64_to_string(0), "0");
    assert_eq!(u64_to_string(7), "7");
    assert_eq!(u64_to_string(10), "10");
    assert_eq!(u64_to_string(14400), "14400");
    assert_eq!(u64_to_string(u64::MAX), "18446744073709551615");
}

#[test]
fn parse_usize_reads_digits_only() {
    assert_eq!(parse_usize("0"), Some(0));
    assert_eq!(parse_usize("14400"), Some(14400));
    assert_eq!(parse_usize(""), None);
    assert_eq!(parse_usize("12a"), None);
    assert_eq!(parse_usize("-5"), None);
    assert_eq!(parse_usize("99999999999999999999999999"), None);
    assert_eq!(parse_usize("18446744073709551615"), Some(usize::MAX));
}

#[test]
fn parse_bool_reads_exactly_true_and_false() {
    assert_eq!(parse_bool("true"), Some(true));
    assert_eq!(parse_bool("false"), Some(false));
    assert_eq!(parse_bool("True"), None);
    assert_eq!(parse_bool(""), None);
}

#[test]
fn trim_and_split() {
    assert_eq!(trim_str("  a b  "), "a b");
    assert_eq!(trim_str(""), "");
    assert_eq!(trim_str(" \t\r\n "), "");
    assert_eq!(split_trim_commas("a, b ,c"), vec!["a", "b", "c"]);
    assert_eq!(split_trim_commas("*"), vec!["*"]);
    assert_eq!(split_trim_commas(""), vec![""]);
    assert_eq!(split_trim_commas("x,,y"), vec!["x", "", "y"]);
}

#[test]
fn str_eq_compares_contents() {
    assert!(str_eq("abc", "abc"));
    assert!(!str_eq("abc", "abd"));
    assert!(!str_eq("abc", "abcd"));
}

#[test]
fn config_applies_documented_defaults() {
    let c = Config::from_env_values(
        String::from("client"),
        String::from("secret"),
        None,
        None,
        None,
        None,
        None,
    );
    assert_eq!(c.client_id, "client");
    assert_eq!(c.client_secret, "secret");
    assert_eq!(c.serv_addrs, "0.0.0.0:20090");
    assert_eq!(c.jwt_secret, "test_jwt_secret");
    assert_eq!(c.jwt_refresh_secret, "test_jwt_refresh_secret");
    assert_eq!(c.token_expiration, 14400);
    assert_eq!(c.token_refresh_expiration, 30000);
    assert_eq!(c.cors_allowed_origins, vec!["*"]);
}

#[test]
fn config_reads_explicit_values() {
    let c = Config::from_env_values(
        String::from("client"),
        String::from("secret"),
        Some(String::from("127.0.0.1:8080")),
        Some(String::from("k1")),
        Some(String::from("k2")),
        Some(String::from("https://a.example, https://b.example")),
        Some(String::from("7200")),
    );
    assert_eq!(c.serv_addrs, "127.0.0.1:8080");
    assert_eq!(c.jwt_secret, "k1");
    assert_eq!(c.jwt_refresh_secret, "k2");
    assert_eq!(c.token_expiration, 7200);
    assert_eq!(
        c.cors_allowed_origins,
        vec!["https://a.example", "https://b.example"]
    );
}

#[test]
fn config_falls_back_on_unreadable_expiration() {
    let c = Config::from_env_values(
        String::from("client"),
        String::from("secret"),
        None,
        None,
        None,
        None,
        Some(String::from("soon")),
    );
    assert_eq!(c.token_expiration, 14400);
}

#[test]
fn prefix_stops_at_the_first_dash() {
    assert_eq!(prefix_of("floor-1-a"), "floor");
    assert_eq!(prefix_of("plain"), "plain");
    assert_eq!(prefix_of("-x"), "");
    assert_eq!(prefix_of(""), "");
}

#[test]
fn svg_item_carries_a_fresh_id_and_the_prefix() {
    let item = new_svg_item_from_request(SvgRequest {
        name: String::from("hall-2"),
        content: String::from("<svg/>"),
    });
    assert_eq!(item.id.len(), 36);
    assert_eq!(item.name, "hall-2");
    assert_eq!(item.prefix, "hall");
    assert_eq!(item.content, "<svg/>");
    let other = new_svg_item_from_request(SvgRequest {
        name: String::from("hall-2"),
        content: String::from("<svg/>"),
    });
    assert_ne!(item.id, other.id);
}

#[test]
fn paginate_computes_offset_and_page_count() {
    assert_eq!(paginate(10, 2, 3), (3, 4));
    assert_eq!(paginate(0, 1, 5), (0, 0));
    assert_eq!(paginate(15, 1, 5), (0, 3));
    assert_eq!(paginate(16, 4, 5), (15, 4));
}

#[test]
fn delete_outcome_text() {
    assert!(delete_svg_outcome(true).is_ok());
    assert_eq!(delete_svg_outcome(false).unwrap_err(), "SVG no encontrado");
}

#[test]
fn status_colors_present_every_row() {
    let rows = vec![
        StatusColor {
            id: 1,
            name: String::from("open"),
            status: String::from("available"),
            hexadecimal: String::from("#00ff00"),
            created_at: 1,
            updated_at: 2,
        },
        StatusColor {
            id: 2,
            name: String::from("sold"),
            status: String::from("taken"),
            hexadecimal: String::from("#ff0000"),
            created_at: 3,
            updated_at: 4,
        },
    ];
    let single = StatusColorResponse::from_entity(&rows[0]);
    assert_eq!(single.id, 1);
    assert_eq!(single.hexadecimal, "#00ff00");
    let list = get_all_colors_response(&rows);
    assert_eq!(list.total, 2);
    assert_eq!(list.colors.len(), 2);
    assert_eq!(list.colors[1].name, "sold");
    assert_eq!(list.colors[1].status, "taken");
}

#[test]
fn token_form_and_urls() {
    let form = token_request_form("rt", "ci", "cs");
    assert_eq!(form.len(), 4);
    assert_eq!(form[0], (String::from("refresh_token"), String::from("rt")));
    assert_eq!(form[1], (String::from("client_id"), String::from("ci")));
    assert_eq!(form[2], (String::from("client_secret"), String::from("cs")));
    assert_eq!(
        form[3],
        (String::from("grant_type"), String::from("refresh_token"))
    );
    assert_eq!(
        oauth_token_url("https://accounts.zoho.com"),
        "https://accounts.zoho.com/oauth/v2/token"
    );
    assert_eq!(
        products_page_url("https://api.example/crm/v2", 3, 200),
        "https://api.example/crm/v2/Products?page=3&per_page=200&fields=id,Product_Name,Estatus_venta"
    );
    assert_eq!(
        map_access_url("https://api.example/crm/v2"),
        "https://api.example/crm/v2/Acceso_a_Mapas"
    );
}

#[test]
fn select_map_access_picks_the_first_matching_record() {
    let data = vec![
        ZohoMapAccess {
            id: String::from("1"),
            name: String::from("A"),
        },
        ZohoMapAccess {
            id: String::from("2"),
            name: String::from("B"),
        },
        ZohoMapAccess {
            id: String::from("3"),
            name: String::from("B"),
        },
    ];
    let chosen = select_map_access(&data, "B").unwrap();
    assert_eq!(chosen.id, "2");
    assert_eq!(chosen.name, "B");
    let first = select_map_access(&data, "A").unwrap();
    assert_eq!(first.id, "1");
}

#[test]
fn select_map_access_without_a_matching_name_is_not_found() {
    let data = vec![ZohoMapAccess {
        id: String::from("1"),
        name: String::from("A"),
    }];
    let err = select_map_access(&data, "ghost").unwrap_err();
    assert!(matches!(err, ApiError::NotFound(m) if m == "No map access found for the name: ghost"));

    let empty: Vec<ZohoMapAccess> = Vec::new();
    let err2 = select_map_access(&empty, "ghost").unwrap_err();
    assert!(
        matches!(err2, ApiError::NotFound(m) if m == "No map access found for the name: ghost")
    );
}

#[test]
fn lookup_errors_classify_by_their_text() {
    let not_found = classify_lookup_error("No map access found for the name: x", "door");
    assert!(
        matches!(not_found, ApiError::NotFound(m) if m == "No map access found for the name: door")
    );
    let network = classify_lookup_error("connection reset by peer", "door");
    assert!(
        matches!(network, ApiError::InternalError(m) if m == "Failed to fetch map access from Zoho")
    );
}

#[test]
fn product_pagination_collects_until_an_empty_page() {
    let mut all: Vec<ZohoProduct> = Vec::new();
    let page1 = vec![ZohoProduct {
        id: String::from("p1"),
        Product_Name: Some(String::from("One")),
        Estatus_venta: None,
    }];
    assert!(collect_product_page(&mut all, page1));
    assert_eq!(all.len(), 1);
    let empty: Vec<ZohoProduct> = Vec::new();
    assert!(!collect_product_page(&mut all, empty));
    assert_eq!(all.len(), 1);
    assert_eq!(all[0].id, "p1");
}

#[test]
fn cached_products_map_back_to_the_api_shape() {
    let cached = vec![Product {
        id: String::from("p1"),
        product_name: Some(String::from("One")),
        estatus_venta: Some(String::from("En venta")),
        created_at: 0,
        updated_at: 0,
    }];
    let out = products_to_zoho(&cached);
    assert_eq!(out.len(), 1);
    assert_eq!(out[0].id, "p1");
    assert_eq!(out[0].Product_Name.as_deref(), Some("One"));
    assert_eq!(out[0].Estatus_venta.as_deref(), Some("En venta"));
}

#[test]
fn api_error_status_codes_and_messages() {
    let cases: Vec<(ApiError, u16, &str)> = vec![
        (
            ApiError::InvalidToken(String::from("x")),
            401,
            "Invalid Token: x",
        ),
        (
            ApiError::TokenExpired(String::from("x")),
            401,
            "Expired Token: x",
        ),
        (
            ApiError::UnprocessableEntity(String::from("x")),
            422,
            "Unprocessable Entity: x",
        ),
        (
            ApiError::InternalError(String::from("x")),
            500,
            "Internal Error: x",
        ),
        (ApiError::NotFound(String::from("x")), 404, "Not Found: x"),
        (ApiError::Forbidden(String::from("x")), 403, "Forbidden: x"),
    ];
    for (err, code, text) in cases {
        assert_eq!(err.status_code(), code);
        assert_eq!(err.message(), text);
    }
    let body = ApiError::NotFound(String::from("nope")).error_response_body();
    assert_eq!(body, "{\"error\":\"Not Found: nope\"}");
}
