//! The template engine, filled from the template files built into the program.
use vstd::prelude::*;
use vstd::utf8::{decode_utf8, valid_utf8};

use crate::run::utf8_text;

verus! {

#[verifier::external_type_specification]
#[verifier::external_body]
pub struct ExTera(tera::Tera);

#[verifier::external_type_specification]
#[verifier::external_body]
pub struct ExTeraError(tera::Error);

/// The templates that a Tera engine holds: for each template name, the text it
/// was parsed from.
pub uninterp spec fn template_texts(t: tera::Tera) -> Map<Seq<char>, Seq<char>>;

/// The engine's templates were all accepted: every parent that a template
/// extends and every file it imports macros from is present, and no chain of
/// parents loops, as after each successful `add_raw_template`.
pub uninterp spec fn tera_settled(t: tera::Tera) -> bool;

/// Tera accepts the text `content` as the template `name`, added to an engine
/// whose settled templates are `texts`: it parses, and the inheritance chains
/// and macro imports of all templates can then be built.
pub uninterp spec fn tera_accepts(texts: Map<Seq<char>, Seq<char>>, name: Seq<char>, content: Seq<
    char,
>) -> bool;

/// `Tera::default()`: an engine with the built-in filters, testers and
/// functions and no template.
#[verifier::external_body]
fn new_engine() -> (res: tera::Tera)
    ensures
        template_texts(res).dom() == Set::<Seq<char>>::empty(),
        tera_settled(res),
{
    tera::Tera::default()
}

/// `Tera::add_raw_template`: parses `content` as the template `name`, then
/// builds the inheritance chains and checks the macro imports of all templates.
/// It succeeds exactly when Tera accepts the text (a function of the engine's
/// templates, the name and the text); the engine then holds `name`, parsed from
/// `content`, besides the other templates, and is settled again. Its source
/// inserts the template before the checks, so after an error the engine holds
/// either the templates it held or those with `name`. The engine must be
/// settled and must not hold `name` yet: on an engine that kept a refused
/// template, or when a template is replaced, the chain walk can loop without
/// end. Which texts Tera accepts is not stated.
#[verifier::external_body]
fn add_raw_template(t: &mut tera::Tera, name: &str, content: &str) -> (res: Result<
    (),
    tera::Error,
>)
    requires
        tera_settled(*old(t)),
        !template_texts(*old(t)).dom().contains(name@),
    ensures
        res is Ok <==> tera_accepts(template_texts(*old(t)), name@, content@),
        res is Ok ==> template_texts(*final(t)) == template_texts(*old(t)).insert(name@, content@),
        res is Ok ==> tera_settled(*final(t)),
        template_texts(*final(t)) == template_texts(*old(t)) || template_texts(*final(t))
            == template_texts(*old(t)).insert(name@, content@),
{
    t.add_raw_template(name, content)
}

/// A template file built into the program.
pub struct TemplateFile {
    /// The file's path below the template folder, which names the template.
    pub name: String,
    /// The file's bytes.
    pub content: Vec<u8>,
}

/// Why a template file could not be loaded.
pub enum TemplateFailure {
    /// Its bytes are not UTF-8 text.
    NotText,
    /// Tera refused it, with this error.
    Refused(tera::Error),
}

/// A template file that could not be loaded.
pub struct TemplateError {
    /// The template's name.
    pub name: String,
    /// What went wrong.
    pub cause: TemplateFailure,
}

/// The templates that `files` give, one after the other: each file's name with
/// its bytes read as UTF-8 text.
pub open spec fn file_texts(files: Seq<TemplateFile>) -> Map<Seq<char>, Seq<char>>
    decreases files.len(),
{
    if files.len() == 0 {
        Map::empty()
    } else {
        file_texts(files.drop_last()).insert(files.last().name@, decode_utf8(files.last().content@))
    }
}

/// No two of `files` have the same name.
pub open spec fn distinct_names(files: Seq<TemplateFile>) -> bool {
    forall|i: int, j: int| 0 <= i < j < files.len() ==> #[trigger] files[i].name@ != #[trigger] files[j].name@
}

/// File `i` of `files` loads after the files before it: it is UTF-8 text and
/// Tera accepts that text beside the templates of the earlier files.
pub open spec fn file_loads(files: Seq<TemplateFile>, i: int) -> bool {
    &&& valid_utf8(files[i].content@)
    &&& tera_accepts(file_texts(files.take(i)), files[i].name@, decode_utf8(files[i].content@))
}

/// The templates of `files` are named exactly by the files' names.
pub proof fn lemma_file_texts_names(files: Seq<TemplateFile>, k: Seq<char>)
    ensures
        file_texts(files).dom().contains(k) <==> exists|j: int| 0 <= j < files.len() && #[trigger] files[j].name@ == k,
    decreases files.len(),
{
    if files.len() > 0 {
        let prev = files.drop_last();
        lemma_file_texts_names(prev, k);
        if exists|j: int| 0 <= j < prev.len() && #[trigger] prev[j].name@ == k {
            let j = choose|j: int| 0 <= j < prev.len() && #[trigger] prev[j].name@ == k;
            assert(files[j].name@ == k);
        }
        if exists|j: int| 0 <= j < files.len() && #[trigger] files[j].name@ == k {
            let j = choose|j: int| 0 <= j < files.len() && #[trigger] files[j].name@ == k;
            if j < prev.len() {
                assert(prev[j].name@ == k);
            }
        }
    }
}

/// Fills a new Tera engine with `files`, each a template named after its path
/// and parsed from its text; no two files may share a name. It succeeds
/// exactly when every file loads after the ones before it, and the engine then
/// holds exactly the templates of `files`; otherwise it reports the first file
/// that does not load, as not UTF-8 text or as refused by Tera.
pub fn load_templates(files: Vec<TemplateFile>) -> (res: Result<tera::Tera, TemplateError>)
    requires
        distinct_names(files@),
    ensures
        res is Ok <==> forall|i: int| 0 <= i < files.len() ==> #[trigger] file_loads(files@, i),
        res matches Ok(t) ==> template_texts(t) == file_texts(files@),
        res matches Err(e) ==> exists|i: int|
            0 <= i < files.len() && #[trigger] files[i].name@ == e.name@
                && (forall|j: int| 0 <= j < i ==> #[trigger] file_loads(files@, j))
                && !file_loads(files@, i)
                && (e.cause is NotText <==> !valid_utf8(files[i].content@)),
{
    let mut engine = new_engine();
    assert(template_texts(engine) =~= Map::<Seq<char>, Seq<char>>::empty());
    let n = files.len();
    assert(files@.take(0) =~= Seq::<TemplateFile>::empty());
    for i in 0..n
        invariant
            n == files.len(),
            distinct_names(files@),
            tera_settled(engine),
            forall|j: int| 0 <= j < i ==> #[trigger] file_loads(files@, j),
            template_texts(engine) == file_texts(files@.take(i as int)),
    {
        let f = &files[i];
        let ghost before = files@.take(i as int);
        assert(files@.take(i + 1).drop_last() =~= before);
        assert(files@.take(i + 1).last() == files@[i as int]);
        proof {
            lemma_file_texts_names(before, f.name@);
            if exists|j: int| 0 <= j < before.len() && #[trigger] before[j].name@ == f.name@ {
                let j = choose|j: int| 0 <= j < before.len() && #[trigger] before[j].name@ == f.name@;
                assert(files@[j].name@ == files@[i as int].name@);
            }
        }
        let text = match utf8_text(f.content.clone()) {
            Some(t) => t,
            None => {
                assert(!file_loads(files@, i as int));
                return Err(TemplateError { name: f.name.clone(), cause: TemplateFailure::NotText });
            },
        };
        match add_raw_template(&mut engine, f.name.as_str(), text.as_str()) {
            Ok(()) => {
                assert(file_loads(files@, i as int));
            },
            Err(cause) => {
                assert(!file_loads(files@, i as int));
                return Err(TemplateError { name: f.name.clone(), cause: TemplateFailure::Refused(cause) });
            },
        }
    }
    assert(files@.take(n as int) =~= files@);
    Ok(engine)
}

} // verus!
