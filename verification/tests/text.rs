use fluent::FluentResource;
use rusted_ruins::text::{
    is_text_file, log_txt, log_txt_with_args, misc_txt, misc_txt_with_args, new_bundle, obj_txt,
    obj_txt_checked, parse_resources, talk_txt, talk_txt_checked, talk_txt_with_args, to_txt,
    try_new_bundle, ui_txt, ui_txt_checked, ui_txt_with_args, Bundle, TextBundles, ToText,
    ToTextId,
};

fn resources(sources: &[&str]) -> Vec<FluentResource> {
    parse_resources(sources.iter().map(|s| s.to_string()).collect())
}

fn bundle(first: &[&str], second: &[&str]) -> Bundle {
    Bundle { first: new_bundle("en", resources(first)), second: new_bundle("ja", resources(second)) }
}

fn bundles() -> TextBundles {
    TextBundles {
        obj: bundle(&["sword = Sword\n"], &["sword = Ken\nshield = Tate\n"]),
        log: bundle(&["hit = { $chara } hits { $target }.\n"], &[]),
        ui: bundle(&["ok = OK\n"], &["cancel = Yameru\n"]),
        talk: bundle(&["greet = Hello, { $name }!\n"], &["bye = Sayonara\n"]),
        misc: bundle(&["town = Town\n"], &[]),
    }
}

fn args(pairs: &[(&str, &str)]) -> Vec<(String, String)> {
    pairs.iter().map(|(k, v)| (k.to_string(), v.to_string())).collect()
}

#[test]
fn first_language_wins_and_second_stands_in() {
    let b = bundles();
    assert_eq!(obj_txt(&b, "sword"), "Sword");
    assert_eq!(obj_txt(&b, "shield"), "Tate");
    assert_eq!(obj_txt_checked(&b, "sword"), Some(String::from("Sword")));
    assert_eq!(obj_txt_checked(&b, "shield"), Some(String::from("Tate")));
}

#[test]
fn a_message_without_text_gives_its_own_name() {
    let b = bundles();
    assert_eq!(obj_txt(&b, "helmet"), "helmet");
    assert_eq!(obj_txt_checked(&b, "helmet"), None);
    assert_eq!(log_txt(&b, "miss"), "miss");
    assert_eq!(ui_txt(&b, "quit"), "quit");
    assert_eq!(ui_txt_checked(&b, "quit"), None);
    assert_eq!(talk_txt(&b, "insult"), "insult");
    assert_eq!(talk_txt_checked(&b, "insult", None), None);
    assert_eq!(misc_txt(&b, "village"), "village");
    assert_eq!(misc_txt_with_args(&b, "village", Some(&args(&[("a", "b")]))), "village");
}

#[test]
fn each_sort_of_text_reads_its_own_bundle() {
    let b = bundles();
    assert_eq!(ui_txt(&b, "ok"), "OK");
    assert_eq!(ui_txt(&b, "cancel"), "Yameru");
    assert_eq!(ui_txt_checked(&b, "ok"), Some(String::from("OK")));
    assert_eq!(ui_txt_with_args(&b, "ok", None), "OK");
    assert_eq!(ui_txt(&b, "sword"), "sword");
    assert_eq!(misc_txt(&b, "town"), "Town");
    assert_eq!(talk_txt(&b, "bye"), "Sayonara");
    assert_eq!(obj_txt(&b, "town"), "town");
}

#[test]
fn arguments_are_filled_in() {
    let b = bundles();
    let a = args(&[("name", "Moor")]);
    assert_eq!(talk_txt_with_args(&b, "greet", Some(&a)), "Hello, \u{2068}Moor\u{2069}!");
    assert_eq!(
        talk_txt_checked(&b, "greet", Some(&a)),
        Some(String::from("Hello, \u{2068}Moor\u{2069}!"))
    );
    let a = args(&[("chara", "You"), ("target", "rat")]);
    assert_eq!(
        log_txt_with_args(&b, "hit", Some(&a)),
        "\u{2068}You\u{2069} hits \u{2068}rat\u{2069}."
    );
}

#[test]
fn a_message_with_attributes_only_has_no_text() {
    let b = bundle(&["login =\n    .title = Log in\n"], &["login = Login\n"]);
    assert_eq!(b.format("login", None), Some(String::from("Login")));
    let b = bundle(&["login =\n    .title = Log in\n"], &[]);
    assert_eq!(b.format("login", None), None);
    assert_eq!(b.format_or_id("login", None), "login");
}

#[test]
fn the_earlier_resource_keeps_a_name() {
    let b = new_bundle("en", resources(&["a = first\n", "a = second\nb = other\n"]));
    assert!(b.has_message("a"));
    assert!(b.has_message("b"));
    assert!(!b.has_message("c"));
    let pair = Bundle { first: b, second: new_bundle("en", Vec::new()) };
    assert_eq!(pair.format("a", None), Some(String::from("first")));
    assert_eq!(pair.format("b", None), Some(String::from("other")));
}

#[test]
fn a_bundle_needs_the_tag_of_a_language() {
    assert!(try_new_bundle("en-US", Vec::new()).is_some());
    assert!(try_new_bundle("ja", resources(&["a = b\n"])).is_some());
    assert!(try_new_bundle("", Vec::new()).is_none());
    assert!(try_new_bundle("not a language", Vec::new()).is_none());
    let b = try_new_bundle("ja", resources(&["a = b\n"])).unwrap();
    assert!(b.has_message("a"));
    assert_eq!(b.locales.len(), 1);
    assert_eq!(b.locales[0].to_string(), "ja");
}

#[test]
fn resources_keep_their_source_and_order() {
    let r = resources(&["a = A\n", "", "b = B\nc = C\n", "this is no message\nd = D\n"]);
    assert_eq!(r.len(), 4);
    assert_eq!(r[0].source(), "a = A\n");
    assert_eq!(r[1].source(), "");
    assert_eq!(r[2].entries().count(), 2);
    assert_eq!(r[3].source(), "this is no message\nd = D\n");
    let b = new_bundle("en", vec![resources(&["this is no message\nd = D\n"]).remove(0)]);
    assert!(b.has_message("d"));
}

#[test]
fn only_ftl_files_hold_texts() {
    assert!(is_text_file(true, Some("ftl")));
    assert!(!is_text_file(false, Some("ftl")));
    assert!(!is_text_file(true, Some("txt")));
    assert!(!is_text_file(true, Some("FTL")));
    assert!(!is_text_file(true, None));
}

struct Weather(bool);

impl ToTextId for Weather {
    fn to_textid(&self) -> &'static str {
        if self.0 {
            "town"
        } else {
            "storm"
        }
    }
}

impl ToText for Weather {
    fn to_text(&self) -> String {
        String::from(self.to_textid())
    }
}

#[test]
fn data_with_a_text_name_is_shown_by_that_text() {
    let b = bundles();
    assert_eq!(to_txt(&b, &Weather(true)), "Town");
    assert_eq!(to_txt(&b, &Weather(false)), "storm");
    assert_eq!(Weather(false).to_text(), "storm");
}
