use vstd::prelude::*;
use crate::config::{
    Defaults, Profile, Sender, get_sender, lang_of, location_of, resolve_lang, resolve_location,
    sender_of, signature_name, signature_of,
};
use crate::date::{CivilDate, display_text, iso_text, today};

verus! {

/// The names of the entries of a directory listing.
pub open spec fn names(entries: Seq<String>) -> Seq<Seq<char>> {
    entries.map_values(|e: String| e@)
}

/// The name of the template file every letter imports.
pub open spec fn template_name() -> Seq<char> {
    "ch-letter-template.typ"@
}

/// The file name of a letter: sortable date, a space, the subject and the source extension.
pub open spec fn letter_filename(d: CivilDate, subject: Seq<char>) -> Seq<char> {
    iso_text(d) + " "@ + subject + ".typ"@
}

/// One line of the sender block, present only when the field is set.
pub open spec fn field_line(prefix: Seq<char>, v: Option<String>) -> Seq<char> {
    match v {
        Some(s) => prefix + s@ + "\",\n"@,
        None => Seq::empty(),
    }
}

pub open spec fn name_prefix() -> Seq<char> {
    "    name: \""@
}

pub open spec fn address_prefix() -> Seq<char> {
    "    address: \""@
}

pub open spec fn extra_prefix() -> Seq<char> {
    "    extra: \""@
}

/// The identity has at least one field that goes into the sender block.
pub open spec fn has_block_fields(s: Sender) -> bool {
    s.name is Some || s.address is Some || s.extra is Some
}

/// The sender block of a letter: the set fields of the identity, or nothing at all.
pub open spec fn sender_block(s: Option<Sender>) -> Seq<char> {
    match s {
        Some(s) if has_block_fields(s) => "  sender: (\n"@ + field_line(name_prefix(), s.name)
            + field_line(address_prefix(), s.address) + field_line(extra_prefix(), s.extra)
            + "  ),\n"@,
        _ => Seq::empty(),
    }
}

/// The document written into a new letter.
pub open spec fn letter_text(
    lang: Seq<char>,
    block: Seq<char>,
    location: Seq<char>,
    date: Seq<char>,
    subject: Seq<char>,
    signature: Seq<char>,
) -> Seq<char> {
    "#import \"ch-letter-template.typ\": ch-letter\n\n#set text(lang: \""@ + lang
        + "\")\n\n#show: ch-letter.with(\n"@ + block + "\n  recipient: \"\",\n\n  location: \""@
        + location + "\",\n  date: \""@ + date + "\",\n  subject: \""@ + subject
        + "\",\n)\n\nSehr geehrte Damen und Herren\n\n\n\nFreundliche Grüsse\n\n#v(1.5cm)\n"@
        + signature + "\n"@
}

/// The document of a letter on `subject`, written on day `d` from `profile`.
pub open spec fn letter_document(
    defaults: Defaults,
    profile: Profile,
    subject: Seq<char>,
    d: CivilDate,
) -> Seq<char> {
    letter_text(
        lang_of(defaults),
        sender_block(sender_of(defaults, profile)),
        location_of(defaults, profile),
        display_text(d),
        subject,
        signature_of(sender_of(defaults, profile)),
    )
}

/// A letter ready to be written: its file name and its document.
#[derive(Debug)]
pub struct Letter {
    pub filename: String,
    pub content: String,
    pub profile: Profile,
    pub date: CivilDate,
}

/// Why a letter could not be created.
#[derive(Debug)]
pub enum LetterError {
    /// The template file is not in the directory.
    TemplateMissing,
    /// A file of the letter's name is already in the directory.
    AlreadyExists(String),
}

/// The directory listing holds an entry named `name`.
pub fn contains_name(entries: &Vec<String>, name: &str) -> (r: bool)
    ensures
        r == names(entries@).contains(name@),
{
    let target = String::from_str(name);
    let mut i: usize = 0;
    while i < entries.len()
        invariant
            i <= entries@.len(),
            target@ == name@,
            forall|j: int| 0 <= j < i ==> entries@[j]@ != name@,
        decreases entries@.len() - i,
    {
        if entries[i] == target {
            assert(names(entries@)[i as int] == name@);
            return true;
        }
        i = i + 1;
    }
    proof {
        if names(entries@).contains(name@) {
            let k = choose|k: int| 0 <= k < names(entries@).len() && names(entries@)[k] == name@;
            assert(entries@[k]@ == name@);
        }
    }
    false
}

fn push_field(out: &mut String, prefix: &str, v: &Option<String>)
    ensures
        final(out)@ == old(out)@ + field_line(prefix@, *v),
{
    if let Some(s) = v {
        out.append(prefix);
        out.append(s.as_str());
        out.append("\",\n");
    } else {
        assert(old(out)@ + field_line(prefix@, *v) =~= old(out)@);
    }
}

/// The sender block for the identity `sender`.
pub fn build_sender_block(sender: &Option<Sender>) -> (r: String)
    ensures
        r@ == sender_block(*sender),
{
    match sender {
        Some(s) => {
            if s.name.is_none() && s.address.is_none() && s.extra.is_none() {
                return String::new();
            }
            let mut out = String::from_str("  sender: (\n");
            push_field(&mut out, "    name: \"", &s.name);
            push_field(&mut out, "    address: \"", &s.address);
            push_field(&mut out, "    extra: \"", &s.extra);
            out.append("  ),\n");
            assert(out@ =~= sender_block(*sender));
            out
        },
        None => String::new(),
    }
}

/// The file name of a letter on `subject` written on day `date`.
pub fn build_filename(date: &CivilDate, subject: &str) -> (r: String)
    requires
        date.wf(),
    ensures
        r@ == letter_filename(*date, subject@),
{
    let mut r = date.iso();
    r.append(" ");
    r.append(subject);
    r.append(".typ");
    assert(r@ =~= letter_filename(*date, subject@));
    r
}

/// The document of a letter on `subject` written on day `date` from `profile`.
pub fn build_content(defaults: &Defaults, profile: Profile, subject: &str, date: &CivilDate) -> (r:
    String)
    requires
        date.wf(),
    ensures
        r@ == letter_document(*defaults, profile, subject@, *date),
{
    let lang = resolve_lang(defaults);
    let sender = get_sender(defaults, profile);
    let location = resolve_location(defaults, profile);
    let block = build_sender_block(&sender);
    let signature = signature_name(&sender);
    let shown = date.display();
    let mut r = String::from_str("#import \"ch-letter-template.typ\": ch-letter\n\n#set text(lang: \"");
    r.append(lang.as_str());
    r.append("\")\n\n#show: ch-letter.with(\n");
    r.append(block.as_str());
    r.append("\n  recipient: \"\",\n\n  location: \"");
    r.append(location.as_str());
    r.append("\",\n  date: \"");
    r.append(shown.as_str());
    r.append("\",\n  subject: \"");
    r.append(subject);
    r.append("\",\n)\n\nSehr geehrte Damen und Herren\n\n\n\nFreundliche Grüsse\n\n#v(1.5cm)\n");
    r.append(signature.as_str());
    r.append("\n");
    assert(r@ =~= letter_document(*defaults, profile, subject@, *date));
    r
}

/// Plans a letter on `subject` dated `date`, in a directory whose entries are `entries`:
/// refused when the template is missing or a file of the letter's name exists.
pub fn plan_letter(
    entries: &Vec<String>,
    defaults: &Defaults,
    profile: Profile,
    subject: &str,
    date: &CivilDate,
) -> (r: Result<Letter, LetterError>)
    requires
        date.wf(),
    ensures
        !names(entries@).contains(template_name()) <==> r matches Err(LetterError::TemplateMissing),
        r matches Err(LetterError::AlreadyExists(f)) <==> (names(entries@).contains(template_name())
            && names(entries@).contains(letter_filename(*date, subject@))),
        r matches Err(LetterError::AlreadyExists(f)) ==> f@ == letter_filename(*date, subject@),
        r matches Ok(l) ==> {
            &&& l.filename@ == letter_filename(*date, subject@)
            &&& l.content@ == letter_document(*defaults, profile, subject@, *date)
            &&& l.profile == profile
            &&& l.date == *date
        },
{
    if !contains_name(entries, "ch-letter-template.typ") {
        return Err(LetterError::TemplateMissing);
    }
    let filename = build_filename(date, subject);
    if contains_name(entries, filename.as_str()) {
        return Err(LetterError::AlreadyExists(filename));
    }
    let content = build_content(defaults, profile, subject, date);
    Ok(Letter { filename, content, profile, date: *date })
}

/// Plans a letter on `subject` dated today, in a directory whose entries are `entries`.
pub fn new_letter(entries: &Vec<String>, defaults: &Defaults, profile: Profile, subject: &str) -> (r:
    Result<Letter, LetterError>)
    ensures
        !names(entries@).contains(template_name()) <==> r matches Err(LetterError::TemplateMissing),
        r matches Err(LetterError::AlreadyExists(f)) ==> names(entries@).contains(f@) && exists|
            d: CivilDate,
        | d.wf() && f@ == letter_filename(d, subject@),
        r matches Ok(l) ==> {
            &&& l.date.wf()
            &&& !names(entries@).contains(l.filename@)
            &&& l.filename@ == letter_filename(l.date, subject@)
            &&& l.content@ == letter_document(*defaults, profile, subject@, l.date)
            &&& l.profile == profile
        },
{
    let date = today();
    plan_letter(entries, defaults, profile, subject, &date)
}


/// Once a letter's file is in the directory, planning the same letter on the same day again
/// is refused as already existing.
pub proof fn lemma_written_letter_refused(entries: Seq<Seq<char>>, d: CivilDate, subject: Seq<char>)
    requires
        entries.contains(template_name()),
    ensures
        entries.push(letter_filename(d, subject)).contains(template_name()),
        entries.push(letter_filename(d, subject)).contains(letter_filename(d, subject)),
{
    let e2 = entries.push(letter_filename(d, subject));
    let k = choose|k: int| 0 <= k < entries.len() && entries[k] == template_name();
    assert(e2[k] == template_name());
    assert(e2[entries.len() as int] == letter_filename(d, subject));
}

/// The lines of the sender block for the fields that are set, in the order name, address, extra.
pub open spec fn set_field_lines(s: Sender) -> Seq<Seq<char>> {
    (if s.name is Some { seq![field_line(name_prefix(), s.name)] } else { Seq::empty() }) + (
    if s.address is Some { seq![field_line(address_prefix(), s.address)] } else { Seq::empty() })
        + (if s.extra is Some { seq![field_line(extra_prefix(), s.extra)] } else { Seq::empty() })
}

/// Lines written one after another.
pub open spec fn concat_lines(lines: Seq<Seq<char>>) -> Seq<char>
    decreases lines.len(),
{
    if lines.len() == 0 {
        Seq::empty()
    } else {
        lines[0] + concat_lines(lines.drop_first())
    }
}

/// The sender block is made of the set fields' lines alone: an identity without set fields
/// gives no block, and an unset field gives no line, not even an empty one.
pub proof fn lemma_sender_block_only_set_fields(s: Sender)
    ensures
        set_field_lines(s).len() == 0 ==> sender_block(Some(s)) == Seq::<char>::empty(),
        set_field_lines(s).len() > 0 ==> sender_block(Some(s)) == "  sender: (\n"@ + concat_lines(
            set_field_lines(s),
        ) + "  ),\n"@,
        set_field_lines(s).len() == (if s.name is Some { 1int } else { 0int }) + (if s.address is Some {
            1int
        } else {
            0int
        }) + (if s.extra is Some { 1int } else { 0int }),
{
    let lines = set_field_lines(s);
    reveal_with_fuel(concat_lines, 4);
    if lines.len() > 0 {
        let n = field_line(name_prefix(), s.name);
        let a = field_line(address_prefix(), s.address);
        let x = field_line(extra_prefix(), s.extra);
        assert(concat_lines(lines) =~= n + a + x) by {
            if lines.len() >= 2 {
                assert(lines.drop_first().drop_first() =~= lines.subrange(2, lines.len() as int));
            }
            if lines.len() >= 1 {
                assert(lines.drop_first() =~= lines.subrange(1, lines.len() as int));
            }
        }
        assert(sender_block(Some(s)) =~= "  sender: (\n"@ + concat_lines(lines) + "  ),\n"@);
    }
}

/// Without a configured language a letter is written in German.
pub proof fn lemma_default_language(defaults: Defaults, profile: Profile, subject: Seq<char>, d: CivilDate)
    requires
        defaults.lang is None,
    ensures
        letter_document(defaults, profile, subject, d) == letter_text(
            "de"@,
            sender_block(sender_of(defaults, profile)),
            location_of(defaults, profile),
            display_text(d),
            subject,
            signature_of(sender_of(defaults, profile)),
        ),
{
}

} // verus!
