use percent_encoding::{utf8_percent_encode, NON_ALPHANUMERIC};
use conduit::app_error::AppError;
use conduit::utils::article::{decode_slug, next_slug, slug_candidate, slug_filter, slugify, SlugProbe};

#[test]
fn slugify_trims_lowercases_and_dashes() {
    assert_eq!(slugify("  Hello World  "), "hello-world");
    assert_eq!(slugify("How to train your dragon?"), "how-to-train-your-dragon");
    assert_eq!(slugify("Rust & Verus: 2024!"), "rust--verus-2024");
}

#[test]
fn slugify_keeps_unicode_letters_and_existing_dashes() {
    assert_eq!(slugify("Ünïcode Straße"), "ünïcode-straße");
    assert_eq!(slugify("pre-existing-dash"), "pre-existing-dash");
    assert_eq!(slugify("a  b"), "a--b");
}

#[test]
fn slugify_lowercases_with_context() {
    // `str::to_lowercase` turns a final capital sigma into the final form.
    assert_eq!(slugify("ΟΔΟΣ"), "οδος");
}

#[test]
fn slugify_of_blank_title_is_empty() {
    assert_eq!(slugify(""), "");
    assert_eq!(slugify("   "), "");
    assert_eq!(slugify("?!."), "");
}

#[test]
fn slug_candidates_count_up() {
    assert_eq!(slug_candidate("hello", 0), "hello");
    assert_eq!(slug_candidate("hello", 1), "hello-1");
    assert_eq!(slug_candidate("hello", 12), "hello-12");
    assert_eq!(slug_candidate("hello", u32::MAX), "hello-4294967295");
    assert_eq!(slug_candidate("", 3), "-3");
}

#[test]
fn slug_candidates_are_distinct() {
    let all: Vec<String> = (0u32..200).map(|i| slug_candidate("a-1", i)).collect();
    for i in 0..all.len() {
        for j in (i + 1)..all.len() {
            assert_ne!(all[i], all[j]);
        }
    }
}

#[test]
fn decode_slug_percent_decodes() {
    assert_eq!(decode_slug("hello%20world"), Ok("hello world".to_string()));
    assert_eq!(decode_slug("%E4%BD%A0%e5%a5%bd"), Ok("你好".to_string()));
    assert_eq!(decode_slug("a%2Fb"), Ok("a/b".to_string()));
}

#[test]
fn decode_slug_keeps_stray_percent_signs() {
    assert_eq!(decode_slug("100%"), Ok("100%".to_string()));
    assert_eq!(decode_slug("%zz%4"), Ok("%zz%4".to_string()));
}

#[test]
fn decode_slug_leaves_plain_slugs_alone() {
    assert_eq!(decode_slug("how-to-train-your-dragon"), Ok("how-to-train-your-dragon".to_string()));
    assert_eq!(decode_slug("ünïcode"), Ok("ünïcode".to_string()));
}

#[test]
fn decode_slug_rejects_invalid_utf8() {
    assert_eq!(decode_slug("%FF"), Err(AppError::BadRequest));
    assert_eq!(decode_slug("ok%C3"), Err(AppError::BadRequest));
}

#[test]
fn slug_search_uses_a_free_candidate_or_moves_on() {
    assert_eq!(next_slug("hello", 0, false), SlugProbe::Use("hello".to_string()));
    assert_eq!(next_slug("hello", 0, true), SlugProbe::Retry(1));
    assert_eq!(next_slug("hello", 4, false), SlugProbe::Use("hello-4".to_string()));
    assert_eq!(next_slug("hello", 4, true), SlugProbe::Retry(5));
}

#[test]
fn slug_ignores_surrounding_whitespace() {
    assert_eq!(slugify("\u{3000}\t Dragons \n"), slugify("Dragons"));
    assert_eq!(slugify(" \u{a0}Dragons"), "dragons");
}

#[test]
fn slug_filter_maps_spaces_and_drops_punctuation() {
    assert_eq!(slug_filter("how to train, your dragon?"), "how-to-train-your-dragon");
    assert_eq!(slug_filter(&slug_filter("a b!c")), slug_filter("a b!c"));
}

#[test]
fn slugify_is_idempotent_on_examples() {
    for t in ["  Hello World  ", "Rust & Verus: 2024!", "Ünïcode Straße", "ΟΔΟΣ"] {
        assert_eq!(slugify(&slugify(t)), slugify(t));
    }
}

#[test]
fn percent_encoded_strings_decode_back() {
    for s in ["how to train your dragon", "你好/ünï%code", "100%", ""] {
        let encoded = utf8_percent_encode(s, NON_ALPHANUMERIC).to_string();
        assert_eq!(decode_slug(&encoded), Ok(s.to_string()));
    }
}
