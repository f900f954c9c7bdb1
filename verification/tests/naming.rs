use agenterra_core::utils::{to_lower_camel_case, to_snake_case, to_upper_camel_case};

#[test]
fn test_to_snake_case() {
    assert_eq!(to_snake_case("findPetsByStatus"), "find_pets_by_status");
    assert_eq!(to_snake_case("FindPetsByStatus"), "find_pets_by_status");
    assert_eq!(to_snake_case("find-pets-by-status"), "find_pets_by_status");
    assert_eq!(to_snake_case("find_pets_by_status"), "find_pets_by_status");
    assert_eq!(to_snake_case("HTTPResponse"), "httpresponse");
    assert_eq!(to_snake_case("getHTTPResponse"), "get_httpresponse");
    assert_eq!(to_snake_case("get HTTP Response"), "get_http_response");
}

#[test]
fn test_to_upper_camel_case() {
    assert_eq!(
        to_upper_camel_case("find_pets_by_status"),
        "FindPetsByStatus"
    );
    assert_eq!(to_upper_camel_case("findPetsByStatus"), "FindPetsByStatus");
    assert_eq!(
        to_upper_camel_case("find-pets-by-status"),
        "FindPetsByStatus"
    );
    assert_eq!(
        to_upper_camel_case("FIND_PETS_BY_STATUS"),
        "FindPetsByStatus"
    );
    assert_eq!(to_upper_camel_case("http_response"), "HttpResponse");
}

#[test]
fn test_to_lower_camel_case() {
    assert_eq!(
        to_lower_camel_case("find_pets_by_status"),
        "findPetsByStatus"
    );
    assert_eq!(to_lower_camel_case("FindPetsByStatus"), "findPetsByStatus");
    assert_eq!(
        to_lower_camel_case("find-pets-by-status"),
        "findPetsByStatus"
    );
    assert_eq!(
        to_lower_camel_case("FIND_PETS_BY_STATUS"),
        "findPetsByStatus"
    );
    assert_eq!(to_lower_camel_case("http_response"), "httpResponse");
}

#[test]
fn test_naming_drops_other_characters() {
    assert_eq!(to_snake_case("get/pet.by(id)!"), "getpetbyid");
    assert_eq!(to_snake_case("a!B"), "ab");
    assert_eq!(to_snake_case("a.B"), "ab");
    assert_eq!(to_snake_case("a.b"), "ab");
    assert_eq!(to_snake_case("aB"), "a_b");
    assert_eq!(to_snake_case("a B"), "a_b");
    assert_eq!(to_snake_case("a1B"), "a1b");
    assert_eq!(to_snake_case("__a--b  c__"), "a_b_c");
    assert_eq!(to_snake_case("-_ "), "");
    assert_eq!(to_snake_case(""), "");
    assert_eq!(to_snake_case("\u{c9}t\u{e9}Nom"), "tnom");
    assert_eq!(to_snake_case("\u{e9}"), "");
    assert_eq!(to_snake_case("x\u{663}y"), "xy");
    assert_eq!(to_snake_case("a\u{2603}b"), "ab");
    assert_eq!(to_upper_camel_case("get/pet.by(id)!"), "Getpetbyid");
    assert_eq!(to_upper_camel_case("!!"), "");
    assert_eq!(to_upper_camel_case("\u{df}x_y"), "XY");
    assert_eq!(to_upper_camel_case("\u{e9}t\u{e9}"), "T");
    assert_eq!(to_lower_camel_case("\u{c9}Cole"), "cole");
    assert_eq!(to_lower_camel_case("\u{c9}"), "");
    assert_eq!(to_lower_camel_case(""), "");
    assert_eq!(to_lower_camel_case("X"), "x");
    assert_eq!(to_lower_camel_case("9 lives"), "9Lives");
}

#[test]
fn test_snake_case_is_stable_under_a_second_application() {
    for text in [
        "findPetsByStatus",
        "HTTPResponse",
        "get HTTP Response",
        "a--b__c",
        "ab1_cd",
        "\u{c9}cole Normale",
        "x9Y",
    ] {
        let once = to_snake_case(text);
        assert_eq!(to_snake_case(&once), once);
        assert_eq!(to_upper_camel_case(&once), to_upper_camel_case(text));
        assert_eq!(to_lower_camel_case(&once), to_lower_camel_case(text));
    }
    // The camel-case form of a camel-case form may differ: a digit ends a
    // word only before an underscore.
    assert_eq!(to_upper_camel_case("ab1_cd"), "Ab1Cd");
    assert_eq!(to_upper_camel_case("Ab1Cd"), "Ab1cd");
}

#[test]
fn test_naming_results_hold_ascii_letters_and_digits_only() {
    for text in [
        "findPetsByStatus",
        "get/pet.by(id)!",
        "\u{c9}cole Normale \u{2603} 42",
        "\u{df}\u{130}\u{1c5}",
        "__--  ",
        "",
        "A",
        "9x",
    ] {
        let snake = to_snake_case(text);
        assert!(snake
            .chars()
            .all(|c| c.is_ascii_lowercase() || c.is_ascii_digit() || c == '_'));
        assert!(!snake.starts_with('_') && !snake.ends_with('_'));
        assert!(!snake.contains("__"));
        let upper = to_upper_camel_case(text);
        assert!(upper.chars().all(|c| c.is_ascii_alphanumeric()));
        let lower = to_lower_camel_case(text);
        assert!(lower.chars().all(|c| c.is_ascii_alphanumeric()));
        assert_eq!(lower.is_empty(), upper.is_empty());
        assert!(!lower.chars().next().is_some_and(|c| c.is_ascii_uppercase()));
    }
}
