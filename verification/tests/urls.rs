use footager::footage_url::{
    clip_index, find_url_name, get_footage_id, get_footage_name, get_href_value, href_value_checked,
};

const ARTGRID_CLIP: &str = "https://artgrid.io/clip/302105/boat-river-buildings-clouds";

#[test]
fn href_value_of_artgrid_clip() {
    assert_eq!(
        get_href_value(ARTGRID_CLIP),
        "//a[@href='/clip/302105/boat-river-buildings-clouds']"
    );
}

#[test]
fn href_value_without_slash() {
    assert_eq!(get_href_value("no-slash-here"), "String is not a valid URL");
}

#[test]
fn href_value_checked_refuses_short_url() {
    assert_eq!(href_value_checked("ab/cd"), None);
    assert_eq!(
        href_value_checked(ARTGRID_CLIP),
        Some("//a[@href='/clip/302105/boat-river-buildings-clouds']".to_string())
    );
    assert_eq!(
        href_value_checked("plain"),
        Some("String is not a valid URL".to_string())
    );
}

#[test]
fn href_value_checked_refuses_split_character() {
    // The byte twelve places after the slash falls inside the two-byte `é`.
    let url = "a/bcdefghijkéz";
    assert_eq!(href_value_checked(url), None);
    let url = "a/bcdefghijkzé";
    assert_eq!(href_value_checked(url), Some("//a[@href='é']".to_string()));
}

#[test]
fn footage_id_of_artgrid_clip() {
    assert_eq!(get_footage_id(ARTGRID_CLIP), "302105");
    assert_eq!(
        get_footage_id("https://artgrid.io/clip/373014/water-lily-pink-flower-flowering-plant-bloom"),
        "373014"
    );
}

#[test]
fn clip_index_of_artgrid_clip() {
    assert_eq!(clip_index(ARTGRID_CLIP), Some(19));
    assert_eq!(clip_index("https://é.io/clip/ü1/x"), Some(14));
    assert_eq!(clip_index("https://artgrid.io/"), None);
}

#[test]
fn footage_id_errors() {
    assert_eq!(get_footage_id("https://artgrid.io/"), "String is not a valid URL");
    assert_eq!(
        get_footage_id("https://artgrid.io/clip/302105"),
        "Invalid URL: No slash after 'clip/'"
    );
}

#[test]
fn footage_id_after_non_ascii() {
    assert_eq!(get_footage_id("https://é.io/clip/ü1/x"), "ü1");
}

#[test]
fn footage_name_of_song() {
    assert_eq!(
        get_footage_name("https://artlist.io/royalty-free-music/song/morning-has-come/127054"),
        "morning has come"
    );
    assert_eq!(
        get_footage_name("https://artlist.io/royalty-free-music/song/kimray/92445"),
        "kimray"
    );
    assert_eq!(
        get_footage_name("https://artlist.io/royalty-free-music/song/hero/114919"),
        "hero"
    );
}

#[test]
fn footage_name_of_track_with_triple_dash() {
    assert_eq!(
        get_footage_name(
            "https://artlist.io/sfx/track/bora-wind---forest-strong-wind-dead-leaves-rustling/54298"
        ),
        "bora wind - forest strong wind dead leaves rustling"
    );
    assert_eq!(
        get_footage_name(
            "https://artlist.io/sfx/track/experimental-whooshes--transitions---spaceship-metallic-whoosh-/124747"
        ),
        "experimental whooshes transitions - spaceship metallic whoosh "
    );
}

#[test]
fn footage_name_errors() {
    assert_eq!(
        get_footage_name("https://artlist.io/song/no-slash"),
        "Invalid URL: No slash after 'clip/'"
    );
    assert_eq!(
        get_footage_name("https://artlist.io/track/no-slash"),
        "Invalid URL: No slash after 'track/'"
    );
    assert_eq!(
        get_footage_name("https://artlist.io/other/thing/"),
        "URL doesn't contain valid URL"
    );
}

#[test]
fn footage_name_prefers_song_over_track() {
    assert_eq!(get_footage_name("x/track/a-b/song/c-d/"), "c d");
}

#[test]
fn find_url_name_cases() {
    assert_eq!(find_url_name("abc/def/", 4), Some("def".to_string()));
    assert_eq!(find_url_name("abc/def", 4), None);
    assert_eq!(find_url_name("a--b/", 0), Some("a b".to_string()));
    assert_eq!(find_url_name("a-----b/", 0), Some("a -  b".to_string()));
    assert_eq!(find_url_name("a   b/", 0), Some("a   b".to_string()));
    assert_eq!(find_url_name("/", 0), Some(String::new()));
}
