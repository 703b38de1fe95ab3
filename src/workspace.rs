use vstd::prelude::*;
use crate::date::{padded, write_padded};
use crate::letter::{contains_name, names, template_name};

verus! {

broadcast use vstd::seq_lib::group_to_multiset_ensures;

/// `n` ends with `suffix`.
pub open spec fn ends(n: Seq<char>, suffix: Seq<char>) -> bool {
    suffix.len() <= n.len() && n.subrange(n.len() - suffix.len(), n.len() as int) == suffix
}

/// A letter source file: a name with something before its `.typ` extension.
pub open spec fn is_source(n: Seq<char>) -> bool {
    n.len() > 4 && ends(n, ".typ"@)
}

/// A template file, which is never compiled or listed.
pub open spec fn is_template(n: Seq<char>) -> bool {
    ends(n, "-template.typ"@)
}

pub open spec fn is_letter(n: Seq<char>) -> bool {
    is_source(n) && !is_template(n)
}

/// A source file's name without its extension.
pub open spec fn base_name(n: Seq<char>) -> Seq<char> {
    n.subrange(0, n.len() - 4)
}

/// The name of a source file's compiled counterpart.
pub open spec fn compiled_name(n: Seq<char>) -> Seq<char> {
    base_name(n) + ".pdf"@
}

/// The compiled counterpart of `n` is among the entries `all`.
pub open spec fn is_built(all: Seq<Seq<char>>, n: Seq<char>) -> bool {
    all.contains(compiled_name(n))
}

/// The letters among `entries`, in order.
pub open spec fn letters(entries: Seq<Seq<char>>) -> Seq<Seq<char>>
    decreases entries.len(),
{
    if entries.len() == 0 {
        Seq::empty()
    } else if is_letter(entries.last()) {
        letters(entries.drop_last()).push(entries.last())
    } else {
        letters(entries.drop_last())
    }
}

/// The letters among `entries` whose compiled counterpart is not in `all`, in order.
pub open spec fn pending(entries: Seq<Seq<char>>, all: Seq<Seq<char>>) -> Seq<Seq<char>>
    decreases entries.len(),
{
    if entries.len() == 0 {
        Seq::empty()
    } else if is_letter(entries.last()) && !is_built(all, entries.last()) {
        pending(entries.drop_last(), all).push(entries.last())
    } else {
        pending(entries.drop_last(), all)
    }
}

/// How many letters among `entries` have their compiled counterpart in `all`.
pub open spec fn built_count(entries: Seq<Seq<char>>, all: Seq<Seq<char>>) -> nat
    decreases entries.len(),
{
    if entries.len() == 0 {
        0
    } else if is_letter(entries.last()) && is_built(all, entries.last()) {
        built_count(entries.drop_last(), all) + 1
    } else {
        built_count(entries.drop_last(), all)
    }
}

/// `a` comes no later than `b` in the order of their characters.
pub open spec fn lex_le(a: Seq<char>, b: Seq<char>) -> bool
    decreases a.len(),
{
    if a.len() == 0 {
        true
    } else if b.len() == 0 {
        false
    } else if (a[0] as u32) != (b[0] as u32) {
        (a[0] as u32) < (b[0] as u32)
    } else {
        lex_le(a.drop_first(), b.drop_first())
    }
}

/// `n` ends with `suffix`.
pub fn ends_with(n: &String, suffix: &str) -> (r: bool)
    ensures
        r == ends(n@, suffix@),
{
    let len = n.as_str().unicode_len();
    let k = suffix.unicode_len();
    if k > len {
        return false;
    }
    let tail = String::from_str(n.as_str().substring_char(len - k, len));
    tail == String::from_str(suffix)
}

/// `n` names a letter: a source file that is not a template.
pub fn is_letter_name(n: &String) -> (r: bool)
    ensures
        r == is_letter(n@),
{
    proof {
        reveal_strlit(".typ");
    }
    n.as_str().unicode_len() > 4 && ends_with(n, ".typ") && !ends_with(n, "-template.typ")
}

/// The name of a source file without its extension.
pub fn base_of(n: &String) -> (r: String)
    requires
        is_source(n@),
    ensures
        r@ == base_name(n@),
{
    let len = n.as_str().unicode_len();
    String::from_str(n.as_str().substring_char(0, len - 4))
}

/// The name of the compiled counterpart of a source file.
pub fn compiled_of(n: &String) -> (r: String)
    requires
        is_source(n@),
    ensures
        r@ == compiled_name(n@),
{
    base_of(n).concat(".pdf")
}

/// What a build run does: the letters to hand to the compiler, in directory order, and
/// how many letters were skipped as already compiled.
#[derive(Debug)]
pub struct BuildPlan {
    pub to_compile: Vec<String>,
    pub skipped: usize,
}

/// Plans a build over a directory whose entries are `entries`.
pub fn plan_build(entries: &Vec<String>) -> (r: BuildPlan)
    ensures
        names(r.to_compile@) == pending(names(entries@), names(entries@)),
        r.skipped == built_count(names(entries@), names(entries@)),
{
    let ghost all = names(entries@);
    let mut to_compile: Vec<String> = Vec::new();
    let mut skipped: usize = 0;
    let mut i: usize = 0;
    while i < entries.len()
        invariant
            i <= entries@.len(),
            all == names(entries@),
            names(to_compile@) == pending(names(entries@.subrange(0, i as int)), all),
            skipped == built_count(names(entries@.subrange(0, i as int)), all),
            skipped <= i,
        decreases entries@.len() - i,
    {
        let ghost after = names(entries@.subrange(0, i + 1));
        assert(after.drop_last() =~= names(entries@.subrange(0, i as int)));
        let e = &entries[i];
        assert(after.last() == e@);
        if is_letter_name(e) {
            let pdf = compiled_of(e);
            if contains_name(entries, pdf.as_str()) {
                skipped = skipped + 1;
            } else {
                to_compile.push(e.clone());
                assert(names(to_compile@) =~= pending(after, all));
            }
        }
        i = i + 1;
    }
    assert(entries@.subrange(0, entries@.len() as int) =~= entries@);
    BuildPlan { to_compile, skipped }
}

/// The closing line of a build run.
pub open spec fn build_summary_text(compiled: nat, skipped: nat) -> Seq<char> {
    if compiled == 0 && skipped == 0 {
        "No .typ files to compile"@
    } else if compiled == 0 {
        "Nothing to build ("@ + padded(skipped, 1) + " already have PDFs)"@
    } else {
        "\nCompiled "@ + padded(compiled, 1) + " letter(s), "@ + padded(skipped, 1) + " skipped"@
    }
}

/// The closing line of a build run that compiled `compiled` letters and skipped `skipped`.
pub fn build_summary(compiled: usize, skipped: usize) -> (r: String)
    ensures
        r@ == build_summary_text(compiled as nat, skipped as nat),
{
    if compiled == 0 && skipped == 0 {
        String::from_str("No .typ files to compile")
    } else if compiled == 0 {
        let r = String::from_str("Nothing to build (").concat(
            write_padded(skipped as u64, 1).as_str(),
        ).concat(" already have PDFs)");
        r
    } else {
        let r = String::from_str("\nCompiled ").concat(write_padded(compiled as u64, 1).as_str()).concat(
            " letter(s), ",
        ).concat(write_padded(skipped as u64, 1).as_str()).concat(" skipped");
        r
    }
}

/// Relies on slice::sort over `String`, whose order compares strings lexicographically by
/// their UTF-8 bytes, which is the order of their characters' code points; sorting only
/// rearranges the items.
#[verifier::external_body]
fn sort_names(v: &mut Vec<String>)
    ensures
        names(final(v)@).to_multiset() == names(old(v)@).to_multiset(),
        forall|i: int, j: int|
            0 <= i < j < final(v)@.len() ==> lex_le(#[trigger] final(v)@[i]@, #[trigger] final(v)@[j]@),
{
    v.sort();
}

/// Every letter found among `entries` is a letter.
pub proof fn lemma_letters_are_letters(entries: Seq<Seq<char>>, x: Seq<char>)
    requires
        letters(entries).contains(x),
    ensures
        is_letter(x),
    decreases entries.len(),
{
    if entries.len() > 0 {
        if letters(entries.drop_last()).contains(x) {
            lemma_letters_are_letters(entries.drop_last(), x);
        } else {
            let k = choose|k: int| 0 <= k < letters(entries).len() && letters(entries)[k] == x;
            assert(is_letter(entries.last()) && k == letters(entries).len() - 1);
        }
    }
}

/// One letter of a listing: its file, its title and whether its compiled counterpart exists.
#[derive(Debug)]
pub struct ListedLetter {
    pub file: String,
    pub title: String,
    pub built: bool,
}

/// The files of a listing, in order.
pub open spec fn listed_files(l: Seq<ListedLetter>) -> Seq<Seq<char>> {
    l.map_values(|x: ListedLetter| x.file@)
}

/// Lists the letters of a directory whose entries are `entries`, sorted by file name,
/// each marked with whether its compiled counterpart is among the entries.
pub fn list_letters(entries: &Vec<String>) -> (r: Vec<ListedLetter>)
    ensures
        listed_files(r@).to_multiset() == letters(names(entries@)).to_multiset(),
        forall|i: int, j: int|
            0 <= i < j < r@.len() ==> lex_le(#[trigger] r@[i].file@, #[trigger] r@[j].file@),
        forall|i: int|
            0 <= i < r@.len() ==> {
                &&& is_letter(#[trigger] r@[i].file@)
                &&& r@[i].title@ == base_name(r@[i].file@)
                &&& r@[i].built == is_built(names(entries@), r@[i].file@)
            },
{
    let mut found: Vec<String> = Vec::new();
    let mut i: usize = 0;
    while i < entries.len()
        invariant
            i <= entries@.len(),
            names(found@) == letters(names(entries@.subrange(0, i as int))),
        decreases entries@.len() - i,
    {
        let ghost after = names(entries@.subrange(0, i + 1));
        assert(after.drop_last() =~= names(entries@.subrange(0, i as int)));
        let e = &entries[i];
        assert(after.last() == e@);
        if is_letter_name(e) {
            found.push(e.clone());
            assert(names(found@) =~= letters(after));
        }
        i = i + 1;
    }
    assert(entries@.subrange(0, entries@.len() as int) =~= entries@);
    let ghost unsorted = names(found@);
    sort_names(&mut found);
    let mut out: Vec<ListedLetter> = Vec::new();
    let mut k: usize = 0;
    while k < found.len()
        invariant
            k <= found@.len(),
            names(found@).to_multiset() == letters(names(entries@)).to_multiset(),
            forall|a: int, b: int|
                0 <= a < b < found@.len() ==> lex_le(#[trigger] found@[a]@, #[trigger] found@[b]@),
            out@.len() == k,
            forall|a: int| 0 <= a < k ==> (#[trigger] out@[a]).file == found@[a],
            forall|a: int|
                0 <= a < k ==> {
                    &&& is_letter(#[trigger] out@[a].file@)
                    &&& out@[a].title@ == base_name(out@[a].file@)
                    &&& out@[a].built == is_built(names(entries@), out@[a].file@)
                },
        decreases found@.len() - k,
    {
        let f = &found[k];
        proof {
            assert(names(found@)[k as int] == f@);
            assert(names(found@).contains(f@));
            assert(names(found@).to_multiset().count(f@) > 0);
            assert(letters(names(entries@)).to_multiset().count(f@) > 0);
            lemma_letters_are_letters(names(entries@), f@);
        }
        let title = base_of(f);
        let pdf = compiled_of(f);
        let built = contains_name(entries, pdf.as_str());
        out.push(ListedLetter { file: f.clone(), title, built });
        k = k + 1;
    }
    assert(listed_files(out@) =~= names(found@));
    out
}

/// The line that shows one letter of a listing.
pub open spec fn listing_line(l: ListedLetter) -> Seq<char> {
    if l.built {
        "  ✓ "@ + l.title@
    } else {
        "  ○ "@ + l.title@
    }
}

pub open spec fn listing_legend() -> Seq<char> {
    "\n  ✓ = PDF exists  ○ = needs build"@
}

/// The lines printed for a listing: a notice when it is empty, else a heading, one line
/// per letter and a legend.
pub fn listing_lines(items: &Vec<ListedLetter>) -> (r: Vec<String>)
    ensures
        items@.len() == 0 ==> r@.len() == 1 && r@[0]@ == "No letters found"@,
        items@.len() > 0 ==> {
            &&& r@.len() == items@.len() + 2
            &&& r@[0]@ == "Letters:\n"@
            &&& forall|i: int| 0 <= i < items@.len() ==> (#[trigger] r@[i + 1])@ == listing_line(items@[i])
            &&& r@[items@.len() as int + 1]@ == listing_legend()
        },
{
    let mut r: Vec<String> = Vec::new();
    if items.len() == 0 {
        r.push(String::from_str("No letters found"));
        return r;
    }
    r.push(String::from_str("Letters:\n"));
    let mut i: usize = 0;
    while i < items.len()
        invariant
            i <= items@.len(),
            r@.len() == i + 1,
            r@[0]@ == "Letters:\n"@,
            forall|j: int| 0 <= j < i ==> (#[trigger] r@[j + 1])@ == listing_line(items@[j]),
        decreases items@.len() - i,
    {
        let l = &items[i];
        let line = if l.built {
            String::from_str("  ✓ ").concat(l.title.as_str())
        } else {
            String::from_str("  ○ ").concat(l.title.as_str())
        };
        r.push(line);
        i = i + 1;
    }
    r.push(String::from_str("\n  ✓ = PDF exists  ○ = needs build"));
    r
}

/// The name of the configuration file.
pub open spec fn defaults_name() -> Seq<char> {
    "defaults.toml"@
}

/// What an init run does: which of the two files it writes; it writes only missing ones.
#[derive(Debug, Clone, Copy, PartialEq, Eq, Structural)]
pub struct InitPlan {
    pub write_template: bool,
    pub write_defaults: bool,
}

/// The plan of an init run over a directory whose entries are `entries`.
pub open spec fn init_plan_of(entries: Seq<Seq<char>>) -> InitPlan {
    InitPlan {
        write_template: !entries.contains(template_name()),
        write_defaults: !entries.contains(defaults_name()),
    }
}

/// The entries of a directory after an init run over `entries`.
pub open spec fn after_init(entries: Seq<Seq<char>>) -> Seq<Seq<char>> {
    let p = init_plan_of(entries);
    let with_template = if p.write_template {
        entries.push(template_name())
    } else {
        entries
    };
    if p.write_defaults {
        with_template.push(defaults_name())
    } else {
        with_template
    }
}

/// Plans an init run over a directory whose entries are `entries`.
pub fn plan_init(entries: &Vec<String>) -> (r: InitPlan)
    ensures
        r == init_plan_of(names(entries@)),
{
    let has_template = contains_name(entries, "ch-letter-template.typ");
    let has_defaults = contains_name(entries, "defaults.toml");
    InitPlan { write_template: !has_template, write_defaults: !has_defaults }
}

pub open spec fn template_report(write: bool) -> Seq<char> {
    if write {
        "Created: ch-letter-template.typ"@
    } else {
        "ch-letter-template.typ already exists, skipping"@
    }
}

pub open spec fn defaults_report(write: bool) -> Seq<char> {
    if write {
        "Created: defaults.toml"@
    } else {
        "defaults.toml already exists, skipping"@
    }
}

impl InitPlan {
    /// The lines an init run prints: one per file, then where to go next.
    pub fn report(&self) -> (r: Vec<String>)
        ensures
            r@.len() == 3,
            r@[0]@ == template_report(self.write_template),
            r@[1]@ == defaults_report(self.write_defaults),
            r@[2]@ == "\n✓ Initialized! Edit defaults.toml with your details, then run: briefli new \"Subject\""@,
    {
        let mut r: Vec<String> = Vec::new();
        if self.write_template {
            r.push(String::from_str("Created: ch-letter-template.typ"));
        } else {
            r.push(String::from_str("ch-letter-template.typ already exists, skipping"));
        }
        if self.write_defaults {
            r.push(String::from_str("Created: defaults.toml"));
        } else {
            r.push(String::from_str("defaults.toml already exists, skipping"));
        }
        r.push(String::from_str("\n✓ Initialized! Edit defaults.toml with your details, then run: briefli new \"Subject\""));
        r
    }
}


/// A letter handed to the compiler is a letter whose compiled counterpart is not there.
pub proof fn lemma_built_never_compiled(entries: Seq<Seq<char>>, all: Seq<Seq<char>>, x: Seq<char>)
    requires
        pending(entries, all).contains(x),
    ensures
        is_letter(x),
        !is_built(all, x),
    decreases entries.len(),
{
    if entries.len() > 0 {
        if pending(entries.drop_last(), all).contains(x) {
            lemma_built_never_compiled(entries.drop_last(), all, x);
        } else {
            let k = choose|k: int| 0 <= k < pending(entries, all).len() && pending(entries, all)[k] == x;
            assert(k == pending(entries, all).len() - 1);
        }
    }
}

/// A second init run writes nothing and reports both files as skipped; the first writes
/// only files that are missing.
pub proof fn lemma_init_idempotent(entries: Seq<Seq<char>>)
    ensures
        init_plan_of(entries).write_template ==> !entries.contains(template_name()),
        init_plan_of(entries).write_defaults ==> !entries.contains(defaults_name()),
        init_plan_of(after_init(entries)) == (InitPlan { write_template: false, write_defaults: false }),
        template_report(init_plan_of(after_init(entries)).write_template)
            == "ch-letter-template.typ already exists, skipping"@,
        defaults_report(init_plan_of(after_init(entries)).write_defaults)
            == "defaults.toml already exists, skipping"@,
{
    let p = init_plan_of(entries);
    let e1 = if p.write_template { entries.push(template_name()) } else { entries };
    let e2 = after_init(entries);
    if p.write_template {
        assert(e1[entries.len() as int] == template_name());
    }
    assert(e1.contains(template_name()));
    let k = choose|k: int| 0 <= k < e1.len() && e1[k] == template_name();
    if p.write_defaults {
        assert(e2[k] == template_name());
        assert(e2[e1.len() as int] == defaults_name());
    } else {
        let j = choose|j: int| 0 <= j < entries.len() && entries[j] == defaults_name();
        assert(e2[j] == defaults_name());
    }
    assert(e2.contains(template_name()));
}


/// The template file written by an init run: the layout every letter imports.
pub open spec fn template_text() -> Seq<char> {
    "// Swiss letter layout: sender top left, recipient in the window, place and date, subject.\n#let ch-letter(\n  sender: (:),\n  recipient: \"\",\n  location: \"\",\n  date: \"\",\n  subject: \"\",\n  body,\n) = {\n  set page(paper: \"a4\", margin: (left: 25mm, right: 20mm, top: 20mm, bottom: 20mm))\n  set text(size: 11pt)\n  set par(justify: true)\n\n  block(height: 40mm)[\n    #if \"name\" in sender [#sender.name \\ ]\n    #if \"address\" in sender [#sender.address \\ ]\n    #if \"extra\" in sender [#sender.extra]\n  ]\n\n  block(height: 35mm, inset: (left: 75mm))[#recipient]\n\n  [#location, #date]\n  v(10mm)\n  text(weight: \"bold\")[#subject]\n  v(8mm)\n  body\n}\n"@
}

/// The configuration file written by an init run, with placeholder identities.
pub open spec fn default_config_text() -> Seq<char> {
    "# Default values for new letters\n# Edit these to match your details\n\n# Default location for the date line\nlocation = \"Zürich\"\n\n# Default language (de, fr, it, en)\nlang = \"de\"\n\n[sender.private]\nname = \"Your Name\"\naddress = \"Street 123, 8000 Zürich\"\n# extra = \"+41 79 123 45 67\"  # Optional: phone, email, etc.\n# location = \"Zürich\"  # Optional: override global location\n\n[sender.work]\nname = \"Your Name\"\naddress = \"Company AG, Street 456, 8001 Zürich\"\n# extra = \"your.email@company.ch\"\n# location = \"Zürich\"  # Optional: override global location\n"@
}

/// What an init run writes into the template file.
pub fn template_content() -> (r: &'static str)
    ensures
        r@ == template_text(),
{
    "// Swiss letter layout: sender top left, recipient in the window, place and date, subject.\n#let ch-letter(\n  sender: (:),\n  recipient: \"\",\n  location: \"\",\n  date: \"\",\n  subject: \"\",\n  body,\n) = {\n  set page(paper: \"a4\", margin: (left: 25mm, right: 20mm, top: 20mm, bottom: 20mm))\n  set text(size: 11pt)\n  set par(justify: true)\n\n  block(height: 40mm)[\n    #if \"name\" in sender [#sender.name \\ ]\n    #if \"address\" in sender [#sender.address \\ ]\n    #if \"extra\" in sender [#sender.extra]\n  ]\n\n  block(height: 35mm, inset: (left: 75mm))[#recipient]\n\n  [#location, #date]\n  v(10mm)\n  text(weight: \"bold\")[#subject]\n  v(8mm)\n  body\n}\n"
}

/// What an init run writes into the configuration file.
pub fn defaults_content() -> (r: &'static str)
    ensures
        r@ == default_config_text(),
{
    "# Default values for new letters\n# Edit these to match your details\n\n# Default location for the date line\nlocation = \"Zürich\"\n\n# Default language (de, fr, it, en)\nlang = \"de\"\n\n[sender.private]\nname = \"Your Name\"\naddress = \"Street 123, 8000 Zürich\"\n# extra = \"+41 79 123 45 67\"  # Optional: phone, email, etc.\n# location = \"Zürich\"  # Optional: override global location\n\n[sender.work]\nname = \"Your Name\"\naddress = \"Company AG, Street 456, 8001 Zürich\"\n# extra = \"your.email@company.ch\"\n# location = \"Zürich\"  # Optional: override global location\n"
}


/// A source file whose compiled counterpart is in the directory is never handed to the
/// compiler; when it is a letter rather than a template, it counts as skipped.
pub proof fn lemma_built_source_skipped(entries: Seq<Seq<char>>, all: Seq<Seq<char>>, f: Seq<char>)
    requires
        entries.contains(f),
        is_source(f),
        is_built(all, f),
    ensures
        !pending(entries, all).contains(f),
        !is_template(f) ==> built_count(entries, all) >= 1,
    decreases entries.len(),
{
    if pending(entries, all).contains(f) {
        lemma_built_never_compiled(entries, all, f);
    }
    if entries.last() != f {
        let k = choose|k: int| 0 <= k < entries.len() && entries[k] == f;
        assert(entries.drop_last()[k] == f);
        lemma_built_source_skipped(entries.drop_last(), all, f);
    }
}

} // verus!
