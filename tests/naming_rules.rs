use font_manager::naming::{
    compose_names, correct_display_name, face_display_name, find_name,
    resolve_name, NameRecord,
};
use font_manager::weight::{correct_weight, is_regular_weight, weight_from_lowered, weight_to_name};

fn rec(id: u16, lang: u16, text: &str) -> NameRecord {
    NameRecord::new(id, lang, true, Some(text.to_string()))
}

#[test]
fn weight_labels_cover_each_bucket() {
    let cases = [
        (100, "Thin"), (199, "Thin"), (200, "ExtraLight"), (299, "ExtraLight"),
        (300, "Light"), (349, "Light"), (350, "DemiLight"), (399, "DemiLight"),
        (400, "Regular"), (499, "Regular"), (500, "Medium"), (600, "SemiBold"),
        (700, "Bold"), (799, "Bold"), (800, "ExtraBold"), (900, "Black"), (999, "Black"),
        (1, "Regular"), (1000, "Regular"),
    ];
    for (w, label) in cases {
        assert_eq!(weight_to_name(w), label, "weight {}", w);
    }
}

#[test]
fn regular_bucket_is_400_to_499() {
    for w in 1u16..=999 {
        assert_eq!(is_regular_weight(w), (400..=499).contains(&w));
    }
}

#[test]
fn weights_below_100_fall_back_to_regular_label_only() {
    assert_eq!(weight_to_name(50), "Regular");
    assert!(!is_regular_weight(50));
}

#[test]
fn declared_400_is_corrected_from_postscript_name() {
    assert_eq!(correct_weight(400, "MiSans-Thin"), 100);
    assert_eq!(correct_weight(400, "Foo-ExtraLight"), 200);
    assert_eq!(correct_weight(400, "Foo-DemiLight"), 350);
    assert_eq!(correct_weight(400, "Foo-Light"), 300);
    assert_eq!(correct_weight(400, "Foo-Medium"), 500);
    assert_eq!(correct_weight(400, "Foo-SemiBold"), 600);
    assert_eq!(correct_weight(400, "Foo-ExtraBold"), 800);
    assert_eq!(correct_weight(400, "Foo-Bold"), 700);
    assert_eq!(correct_weight(400, "Foo-Black"), 900);
    assert_eq!(correct_weight(400, "Foo-Heavy"), 900);
    assert_eq!(correct_weight(400, "Foo-Regular"), 400);
}

#[test]
fn other_weights_are_kept() {
    assert_eq!(correct_weight(700, "Foo-Thin"), 700);
    assert_eq!(correct_weight(450, "Foo-Black"), 450);
}

#[test]
fn compound_tokens_win_over_their_parts() {
    assert_eq!(weight_from_lowered(400, "foo-extralight"), 200);
    assert_eq!(weight_from_lowered(400, "foo-extrabold"), 800);
    assert_eq!(weight_from_lowered(400, "foo-demilight"), 350);
    assert_eq!(weight_from_lowered(400, "foo-semiboldface"), 600);
}

#[test]
fn extra_light_regular_name_is_replaced() {
    assert_eq!(correct_display_name("MiSans Regular", 200), "MiSans ExtraLight");
}

#[test]
fn missing_weight_token_is_appended() {
    assert_eq!(correct_display_name("Roboto", 700), "Roboto Bold");
}

#[test]
fn correction_leaves_regular_and_labelled_names() {
    assert_eq!(correct_display_name("Roboto Regular", 400), "Roboto Regular");
    assert_eq!(correct_display_name("Roboto bold", 700), "Roboto bold");
    assert_eq!(correct_display_name("Foo Normal", 900), "Foo Black");
}

#[test]
fn compose_handles_plain_and_repeated_subfamilies() {
    assert_eq!(compose_names("MiSans", "Regular", 200), "MiSans ExtraLight");
    assert_eq!(compose_names("MiSans", "Regular", 400), "MiSans Regular");
    assert_eq!(compose_names("MiSans", "MiSans Bold", 700), "MiSans Bold");
    assert_eq!(compose_names("Roboto", "Italic", 400), "Roboto Italic");
}

#[test]
fn best_name_prefers_primary_then_secondary_language() {
    let table = vec![rec(1, 1041, "Other"), rec(1, 1033, "English"), rec(1, 2052, "Chinese"), rec(1, 2052, "Later")];
    assert_eq!(find_name(&table, 1), Some("Chinese".to_string()));
    let table = vec![rec(1, 1041, "Other"), rec(1, 1031, "Second")];
    assert_eq!(find_name(&table, 1), Some("Other".to_string()));
    let table = vec![rec(1, 1033, "English"), NameRecord::new(1, 2052, false, Some("Legacy".to_string()))];
    assert_eq!(find_name(&table, 1), Some("English".to_string()));
    assert_eq!(find_name(&table, 4), None);
}

#[test]
fn resolution_falls_back_in_order() {
    let table = vec![rec(1, 1033, "Fam"), rec(2, 1033, "Italic"), rec(16, 1033, "Pref"), rec(17, 1033, "Light")];
    assert_eq!(resolve_name(&Some(table), "Ps", 300), "Pref Light");
    let table = vec![rec(1, 1033, "Fam"), rec(2, 1033, "Italic")];
    assert_eq!(resolve_name(&Some(table), "Ps", 400), "Fam Italic");
    let table = vec![rec(1, 1033, "Fam"), rec(4, 1033, "Full Name")];
    assert_eq!(resolve_name(&Some(table), "Ps", 400), "Full Name");
    assert_eq!(resolve_name(&Some(vec![]), "Ps-Name", 400), "Ps-Name");
    assert_eq!(resolve_name(&None, "Ps-Name", 400), "Ps-Name");
}

#[test]
fn name_slots_pair_as_whole_pairs() {
    let table = vec![rec(16, 1033, "Foo"), rec(2, 1033, "Bold")];
    assert_eq!(resolve_name(&Some(table), "X", 400), "X");
    let table = vec![rec(16, 1033, "Foo"), rec(2, 1033, "Bold"), rec(4, 1033, "Foo Full")];
    assert_eq!(resolve_name(&Some(table), "X", 400), "Foo Full");
    let table = vec![rec(16, 1033, "Pref"), rec(1, 1033, "Fam"), rec(2, 1033, "Italic")];
    assert_eq!(resolve_name(&Some(table), "X", 400), "Fam Italic");
}

#[test]
fn display_name_of_unreadable_face_is_corrected_postscript_name() {
    assert_eq!(face_display_name(&None, "Roboto-Bold", 700), "Roboto-Bold");
    assert_eq!(face_display_name(&None, "Roboto", 700), "Roboto Bold");
}

