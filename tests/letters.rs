use chrono::Datelike;
use briefli::command::{parse_command, parse_new_args, Command};
use briefli::config::{get_sender, resolve_lang, resolve_location, Defaults, Profile, Sender, SenderProfiles};
use briefli::date::CivilDate;
use briefli::letter::{build_filename, build_sender_block, new_letter, plan_letter, LetterError};
use briefli::workspace::{
    build_summary, defaults_content, list_letters, listing_lines, plan_build, plan_init, template_content,
};

fn words(ws: &[&str]) -> Vec<String> {
    ws.iter().map(|w| w.to_string()).collect()
}

fn sender(name: Option<&str>, address: Option<&str>, extra: Option<&str>, location: Option<&str>) -> Sender {
    Sender {
        name: name.map(|s| s.to_string()),
        address: address.map(|s| s.to_string()),
        extra: extra.map(|s| s.to_string()),
        location: location.map(|s| s.to_string()),
    }
}

fn config(private: Option<Sender>, work: Option<Sender>, location: Option<&str>, lang: Option<&str>) -> Defaults {
    Defaults {
        sender: Some(SenderProfiles { private, work }),
        location: location.map(|s| s.to_string()),
        lang: lang.map(|s| s.to_string()),
    }
}

fn day(y: i32, m: u32, d: u32) -> CivilDate {
    CivilDate::new(y, m, d).unwrap()
}

#[test]
fn new_args_default_private_and_joined_subject() {
    let (p, s) = parse_new_args(&words(&["Kündigung", "Mietvertrag"]));
    assert_eq!(p, Profile::Private);
    assert_eq!(s, "Kündigung Mietvertrag");
}

#[test]
fn new_args_work_flag_anywhere() {
    let (p, s) = parse_new_args(&words(&["Projekt", "--work", "anfrage"]));
    assert_eq!(p, Profile::Work);
    assert_eq!(s, "Projekt anfrage");
    let (p, s) = parse_new_args(&words(&["-w", "X", "-p"]));
    assert_eq!(p, Profile::Work);
    assert_eq!(s, "X");
    let (p, s) = parse_new_args(&words(&["-p", "Y", "--private"]));
    assert_eq!(p, Profile::Private);
    assert_eq!(s, "Y");
}

#[test]
fn command_dispatch() {
    assert!(matches!(parse_command(&words(&["briefli"])), Command::Help));
    assert!(matches!(parse_command(&words(&["briefli", "new"])), Command::NewWithoutArgs));
    match parse_command(&words(&["briefli", "new", "-w", "Offerte"])) {
        Command::New { profile, subject } => {
            assert_eq!(profile, Profile::Work);
            assert_eq!(subject, "Offerte");
        }
        other => panic!("unexpected {:?}", other),
    }
    assert!(matches!(parse_command(&words(&["briefli", "build"])), Command::Build));
    assert!(matches!(parse_command(&words(&["briefli", "list"])), Command::List));
    assert!(matches!(parse_command(&words(&["briefli", "init"])), Command::Init));
    assert!(matches!(parse_command(&words(&["briefli", "-h"])), Command::Help));
    assert!(matches!(parse_command(&words(&["briefli", "-V"])), Command::Version));
    match parse_command(&words(&["briefli", "frobnicate"])) {
        Command::Unknown(w) => assert_eq!(w, "frobnicate"),
        other => panic!("unexpected {:?}", other),
    }
}

#[test]
fn sender_by_profile() {
    let d = config(Some(sender(Some("A"), None, None, None)), Some(sender(Some("B"), None, None, None)), None, None);
    assert_eq!(get_sender(&d, Profile::Private).unwrap().name.unwrap(), "A");
    assert_eq!(get_sender(&d, Profile::Work).unwrap().name.unwrap(), "B");
    assert!(get_sender(&Defaults::empty(), Profile::Work).is_none());
}

#[test]
fn date_forms() {
    let d = day(2024, 1, 5);
    assert_eq!(d.iso(), "2024-01-05");
    assert_eq!(d.display(), "05.01.2024");
    assert_eq!(day(987, 12, 31).iso(), "0987-12-31");
    assert_eq!(day(12345, 6, 7).iso(), "+12345-06-07");
    assert_eq!(day(-1, 3, 1).display(), "01.03.-0001");
}

#[test]
fn date_validity() {
    assert!(CivilDate::new(2023, 2, 29).is_none());
    assert!(CivilDate::new(2024, 2, 29).is_some());
    assert!(CivilDate::new(1900, 2, 29).is_none());
    assert!(CivilDate::new(2000, 2, 29).is_some());
    assert!(CivilDate::new(2024, 4, 31).is_none());
    assert!(CivilDate::new(2024, 13, 1).is_none());
    assert!(CivilDate::new(2024, 1, 0).is_none());
}

#[test]
fn filename_is_date_space_subject() {
    assert_eq!(build_filename(&day(2024, 1, 1), "Test"), "2024-01-01 Test.typ");
}

#[test]
fn letter_refused_without_template_or_when_present() {
    let d = Defaults::empty();
    let r = plan_letter(&words(&["x.typ"]), &d, Profile::Private, "Test", &day(2024, 1, 1));
    assert!(matches!(r, Err(LetterError::TemplateMissing)));
    let r = plan_letter(
        &words(&["ch-letter-template.typ", "2024-01-01 Test.typ"]),
        &d,
        Profile::Private,
        "Test",
        &day(2024, 1, 1),
    );
    match r {
        Err(LetterError::AlreadyExists(f)) => assert_eq!(f, "2024-01-01 Test.typ"),
        other => panic!("unexpected {:?}", other),
    }
}

#[test]
fn letter_document_full() {
    let d = config(Some(sender(Some("Anna"), Some("Weg 1"), None, None)), None, Some("Bern"), Some("fr"));
    let l = plan_letter(&words(&["ch-letter-template.typ"]), &d, Profile::Private, "Hallo", &day(2024, 3, 9)).unwrap();
    assert_eq!(l.filename, "2024-03-09 Hallo.typ");
    let expected = "#import \"ch-letter-template.typ\": ch-letter\n\n#set text(lang: \"fr\")\n\n#show: ch-letter.with(\n  sender: (\n    name: \"Anna\",\n    address: \"Weg 1\",\n  ),\n\n  recipient: \"\",\n\n  location: \"Bern\",\n  date: \"09.03.2024\",\n  subject: \"Hallo\",\n)\n\nSehr geehrte Damen und Herren\n\n\n\nFreundliche Grüsse\n\n#v(1.5cm)\nAnna\n";
    assert_eq!(l.content, expected);
}

#[test]
fn absent_fields_omitted() {
    assert_eq!(build_sender_block(&Some(sender(None, None, Some("+41"), None))), "  sender: (\n    extra: \"+41\",\n  ),\n");
    assert_eq!(build_sender_block(&Some(sender(None, None, None, Some("Bern")))), "");
    assert_eq!(build_sender_block(&None), "");
    let l = plan_letter(&words(&["ch-letter-template.typ"]), &Defaults::empty(), Profile::Work, "S", &day(2024, 1, 1)).unwrap();
    assert!(!l.content.contains("sender:"));
    assert!(!l.content.contains("name:"));
}

#[test]
fn language_defaults_to_german() {
    assert_eq!(resolve_lang(&Defaults::empty()), "de");
    let l = plan_letter(&words(&["ch-letter-template.typ"]), &Defaults::empty(), Profile::Private, "S", &day(2024, 1, 1)).unwrap();
    assert!(l.content.contains("#set text(lang: \"de\")"));
}

#[test]
fn location_three_tiers() {
    let own = config(Some(sender(None, None, None, Some("Basel"))), None, Some("Bern"), None);
    assert_eq!(resolve_location(&own, Profile::Private), "Basel");
    let global = config(Some(sender(Some("A"), None, None, None)), None, Some("Bern"), None);
    assert_eq!(resolve_location(&global, Profile::Private), "Bern");
    assert_eq!(resolve_location(&own, Profile::Work), "Bern");
    assert_eq!(resolve_location(&Defaults::empty(), Profile::Private), "Zürich");
    let l = plan_letter(&words(&["ch-letter-template.typ"]), &own, Profile::Private, "S", &day(2024, 1, 1)).unwrap();
    assert!(l.content.contains("location: \"Basel\""));
}

#[test]
fn init_twice_skips() {
    let first = plan_init(&words(&["notes.txt"]));
    assert!(first.write_template && first.write_defaults);
    let report = first.report();
    assert_eq!(report[0], "Created: ch-letter-template.typ");
    assert_eq!(report[1], "Created: defaults.toml");
    let second = plan_init(&words(&["notes.txt", "ch-letter-template.typ", "defaults.toml"]));
    assert!(!second.write_template && !second.write_defaults);
    let report = second.report();
    assert_eq!(report[0], "ch-letter-template.typ already exists, skipping");
    assert_eq!(report[1], "defaults.toml already exists, skipping");
}

#[test]
fn build_counts_compiled_and_skipped() {
    let entries = words(&["b.typ", "done.typ", "ch-letter-template.typ", "done.pdf", "a.typ", "notes.txt"]);
    let plan = plan_build(&entries);
    assert_eq!(plan.to_compile, words(&["b.typ", "a.typ"]));
    assert_eq!(plan.skipped, 1);
}

#[test]
fn build_skips_hidden_extension_only_names() {
    let plan = plan_build(&words(&[".typ", "x-template.typ"]));
    assert!(plan.to_compile.is_empty());
    assert_eq!(plan.skipped, 0);
}

#[test]
fn build_summary_lines() {
    assert_eq!(build_summary(0, 0), "No .typ files to compile");
    assert_eq!(build_summary(0, 3), "Nothing to build (3 already have PDFs)");
    assert_eq!(build_summary(2, 1), "\nCompiled 2 letter(s), 1 skipped");
    assert_eq!(build_summary(12, 0), "\nCompiled 12 letter(s), 0 skipped");
}

#[test]
fn list_sorted_with_marks() {
    let entries = words(&["c.typ", "a.typ", "a.pdf", "ch-letter-template.typ", "B.typ", "b.typ"]);
    let l = list_letters(&entries);
    let files: Vec<&str> = l.iter().map(|x| x.file.as_str()).collect();
    assert_eq!(files, vec!["B.typ", "a.typ", "b.typ", "c.typ"]);
    let built: Vec<bool> = l.iter().map(|x| x.built).collect();
    assert_eq!(built, vec![false, true, false, false]);
    assert_eq!(l[1].title, "a");
}

#[test]
fn example_built_letter_listed_and_skipped() {
    let entries = words(&["2024-01-01 Test.typ", "2024-01-01 Test.pdf"]);
    let l = list_letters(&entries);
    assert_eq!(l.len(), 1);
    assert!(l[0].built);
    let lines = listing_lines(&l);
    assert_eq!(lines, words(&["Letters:\n", "  ✓ 2024-01-01 Test", "\n  ✓ = PDF exists  ○ = needs build"]));
    let plan = plan_build(&entries);
    assert!(plan.to_compile.is_empty());
    assert_eq!(plan.skipped, 1);
}

#[test]
fn empty_listing() {
    let l = list_letters(&words(&["ch-letter-template.typ"]));
    assert!(l.is_empty());
    assert_eq!(listing_lines(&l), words(&["No letters found"]));
}

#[test]
fn new_letter_is_dated_today() {
    let before = chrono::Local::now().date_naive();
    let l = new_letter(&words(&["ch-letter-template.typ"]), &Defaults::empty(), Profile::Work, "Offerte").unwrap();
    let after = chrono::Local::now().date_naive();
    let got = (l.date.year, l.date.month, l.date.day);
    assert!(got == (before.year(), before.month(), before.day()) || got == (after.year(), after.month(), after.day()));
    assert_eq!(l.filename, format!("{} Offerte.typ", l.date.iso()));
    assert_eq!(l.profile, Profile::Work);
}

#[test]
fn or_empty_falls_back() {
    let d = Defaults::or_empty(None);
    assert!(d.sender.is_none() && d.location.is_none() && d.lang.is_none());
    let d = Defaults::or_empty(Some(config(None, None, Some("Chur"), None)));
    assert_eq!(d.location.unwrap(), "Chur");
}

#[test]
fn init_texts() {
    let config = defaults_content();
    assert!(config.starts_with("# Default values for new letters\n"));
    let table: toml::Table = toml::from_str(config).unwrap();
    assert_eq!(table["lang"].as_str(), Some("de"));
    assert_eq!(table["location"].as_str(), Some("Zürich"));
    assert_eq!(table["sender"]["work"]["name"].as_str(), Some("Your Name"));
    assert!(template_content().contains("#let ch-letter("));
}

#[test]
fn built_template_neither_compiled_nor_counted() {
    let plan = plan_build(&words(&["x-template.typ", "x-template.pdf", "y.typ", "y.pdf"]));
    assert!(plan.to_compile.is_empty());
    assert_eq!(plan.skipped, 1);
}
