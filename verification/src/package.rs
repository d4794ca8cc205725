//! Packaging of an assembled work into its container.
//!
//! The container format itself is the outside builder's concern; this module
//! drives it: one page per chapter, named after the chapter's ordinal, added
//! in the order the aggregator established, after the work's metadata and
//! the shared stylesheet. What the builder is fed is verified; the bytes it
//! renders are taken as they come.

use vstd::prelude::*;
use vstd::string::StringExecFns;
use epub_builder::EpubBuilder;
use epub_builder::EpubContent;
use epub_builder::ReferenceType;
use epub_builder::ZipLibrary;
use crate::content::stylesheet;
use crate::model::Chapter;
use crate::model::Work;

verus! {

/// The decimal digit `d`, for `0 <= d <= 9`.
pub open spec fn decimal_digit(d: int) -> char {
    if d == 0 {
        '0'
    } else if d == 1 {
        '1'
    } else if d == 2 {
        '2'
    } else if d == 3 {
        '3'
    } else if d == 4 {
        '4'
    } else if d == 5 {
        '5'
    } else if d == 6 {
        '6'
    } else if d == 7 {
        '7'
    } else if d == 8 {
        '8'
    } else {
        '9'
    }
}

/// The decimal representation of a non-negative integer, most significant
/// digit first, without leading zeroes.
pub open spec fn decimal_rep(n: int) -> Seq<char>
    recommends
        n >= 0,
    decreases n,
{
    if n <= 9 {
        seq![decimal_digit(if n < 0 { 0 } else { n })]
    } else {
        decimal_rep(n / 10).push(decimal_digit(n % 10))
    }
}

/// Relies on `u32::to_string`: the decimal digits of the value, most
/// significant first, without leading zeroes.
#[verifier::external_body]
fn u32_decimal(n: u32) -> (r: String)
    ensures
        r@ == decimal_rep(n as int),
{
    n.to_string()
}

/// The page file name a chapter of ordinal `ordinal` is stored under.
pub open spec fn chapter_file_name_text(ordinal: int) -> Seq<char> {
    "ep"@ + decimal_rep(ordinal) + ".xhtml"@
}

/// The page file name of a chapter: `ep`, the ordinal in decimal, `.xhtml`.
pub fn chapter_file_name(ordinal: i32) -> (r: String)
    requires
        ordinal >= 0,
    ensures
        r@ == chapter_file_name_text(ordinal as int),
{
    let mut name = String::new();
    name.append("ep");
    let digits = u32_decimal(ordinal as u32);
    name.append(digits.as_str());
    name.append(".xhtml");
    proof {
        assert(name@ =~= chapter_file_name_text(ordinal as int));
    }
    name
}

/// What one chapter contributes to the container: its page file name, its
/// title, and its page text.
pub open spec fn chapter_entry(c: Chapter) -> (Seq<char>, Seq<char>, Seq<char>) {
    (chapter_file_name_text(c.ordinal as int), c.title@, c.body@)
}

/// The entries a sequence of chapters contributes, in order.
pub open spec fn chapter_entries(s: Seq<Chapter>) -> Seq<(Seq<char>, Seq<char>, Seq<char>)> {
    s.map_values(|c: Chapter| chapter_entry(c))
}

/// A container under construction. The builder inside is opaque to
/// verification; the contracts below track the chapter pages, the metadata
/// values and the stylesheet it has been fed.
#[verifier::external_body]
pub struct EpubPackage {
    builder: EpubBuilder<ZipLibrary>,
}

/// The chapter pages fed to the package so far, in order: file name, title,
/// page text.
pub uninterp spec fn package_entries(p: EpubPackage) -> Seq<(Seq<char>, Seq<char>, Seq<char>)>;

/// The metadata values recorded for the package so far: key and value, in
/// recording order.
pub uninterp spec fn package_metadata(p: EpubPackage) -> Seq<(Seq<char>, Seq<char>)>;

/// The stylesheet text recorded for the package, once one has been set.
pub uninterp spec fn package_stylesheet(p: EpubPackage) -> Option<Seq<char>>;

/// The archive backend type of the outside builder, opaque here.
#[verifier::external_type_specification]
#[verifier::external_body]
pub struct ExZipLibrary(ZipLibrary);

/// Relies on `ZipLibrary::new`: constructs the archive backend the builder
/// writes into.
#[verifier::external_body]
fn new_zip_library() -> (r: Result<ZipLibrary, String>) {
    ZipLibrary::new().map_err(|e| e.to_string())
}

impl EpubPackage {
    /// Relies on `EpubBuilder::new`: a fresh builder holds no content
    /// pages, has no metadata value recorded through its `metadata` call,
    /// and no stylesheet yet.
    #[verifier::external_body]
    fn create(zip: ZipLibrary) -> (r: Result<EpubPackage, String>)
        ensures
            r matches Ok(p) ==> package_entries(p) == Seq::<(Seq<char>, Seq<char>, Seq<char>)>::empty()
                && package_metadata(p) == Seq::<(Seq<char>, Seq<char>)>::empty()
                && package_stylesheet(p) is None,
    {
        match EpubBuilder::new(zip) {
            Ok(builder) => Ok(EpubPackage { builder }),
            Err(e) => Err(e.to_string()),
        }
    }

    /// Relies on `EpubBuilder::metadata`: on success it records the value
    /// under the key, never touching the content pages or the stylesheet; a
    /// refused key records nothing. The keys `author`, `title` and `lang`
    /// are accepted unconditionally.
    #[verifier::external_body]
    fn set_metadata(&mut self, key: &str, value: &str) -> (r: Result<(), String>)
        ensures
            package_entries(*final(self)) == package_entries(*old(self)),
            package_stylesheet(*final(self)) == package_stylesheet(*old(self)),
            key@ == "author"@ || key@ == "title"@ || key@ == "lang"@ ==> r is Ok,
            r is Ok ==> package_metadata(*final(self)) == package_metadata(*old(self)).push(
                (key@, value@),
            ),
            r is Err ==> package_metadata(*final(self)) == package_metadata(*old(self)),
    {
        match self.builder.metadata(key, value) {
            Ok(_) => Ok(()),
            Err(e) => Err(e.to_string()),
        }
    }

    /// Relies on `EpubBuilder::stylesheet`: on success it records the text
    /// as the shared `stylesheet.css` resource, touching no content page and
    /// no metadata; when the archive write fails, nothing was recorded.
    #[verifier::external_body]
    fn set_stylesheet(&mut self, css: &str) -> (r: Result<(), String>)
        ensures
            package_entries(*final(self)) == package_entries(*old(self)),
            package_metadata(*final(self)) == package_metadata(*old(self)),
            r is Ok ==> package_stylesheet(*final(self)) == Some(css@),
            r is Err ==> package_stylesheet(*final(self)) == package_stylesheet(*old(self)),
    {
        match self.builder.stylesheet(css.as_bytes()) {
            Ok(_) => Ok(()),
            Err(e) => Err(e.to_string()),
        }
    }

    /// Relies on `EpubBuilder::add_content`: on success the page is appended
    /// after everything added before it; on failure the archive write failed
    /// before the entry was recorded. Metadata and stylesheet are never
    /// touched.
    #[verifier::external_body]
    fn add_chapter(&mut self, file_name: &str, title: &str, page: &str) -> (r: Result<(), String>)
        ensures
            package_metadata(*final(self)) == package_metadata(*old(self)),
            package_stylesheet(*final(self)) == package_stylesheet(*old(self)),
            r is Ok ==> package_entries(*final(self)) == package_entries(*old(self)).push(
                (file_name@, title@, page@),
            ),
            r is Err ==> package_entries(*final(self)) == package_entries(*old(self)),
    {
        match self.builder.add_content(
            EpubContent::new(file_name, page.as_bytes()).title(title).reftype(ReferenceType::Text),
        ) {
            Ok(_) => Ok(()),
            Err(e) => Err(e.to_string()),
        }
    }

    /// Relies on `EpubBuilder::inline_toc`: it only schedules a table of
    /// contents page, leaving the chapter pages, the metadata and the
    /// stylesheet as they are.
    #[verifier::external_body]
    fn set_inline_toc(&mut self)
        ensures
            package_entries(*final(self)) == package_entries(*old(self)),
            package_metadata(*final(self)) == package_metadata(*old(self)),
            package_stylesheet(*final(self)) == package_stylesheet(*old(self)),
    {
        self.builder.inline_toc();
    }

    /// Relies on `EpubBuilder::generate`: renders the container into bytes.
    /// Nothing is promised of the rendered bytes themselves.
    #[verifier::external_body]
    fn generate(self) -> (r: Result<Vec<u8>, String>) {
        let mut data: Vec<u8> = vec![];
        match self.builder.generate(&mut data) {
            Ok(()) => Ok(data),
            Err(e) => Err(e.to_string()),
        }
    }
}

/// Feed every chapter to the package, in the order given, each under its
/// ordinal's page name. On success the package holds exactly the entries it
/// held before followed by one entry per chapter, in order; on failure the
/// first failing page is reported, the entries extend the old ones by
/// exactly the chapters before it, and nothing after it was added. The
/// recorded metadata and stylesheet are never touched, and with no chapters
/// to add nothing can fail.
pub fn fill_package(package: &mut EpubPackage, chapters: &Vec<Chapter>) -> (r: Result<(), String>)
    requires
        forall|i: int| 0 <= i < chapters@.len() ==> (#[trigger] chapters@[i]).ordinal >= 0,
    ensures
        package_metadata(*final(package)) == package_metadata(*old(package)),
        package_stylesheet(*final(package)) == package_stylesheet(*old(package)),
        chapters@.len() == 0 ==> r is Ok,
        r is Ok ==> package_entries(*final(package)) == package_entries(*old(package))
            + chapter_entries(chapters@),
        r is Err ==> exists|k: int|
            0 <= k < chapters@.len() && package_entries(*final(package)) == package_entries(
                *old(package),
            ) + chapter_entries(#[trigger] chapters@.subrange(0, k)),
{
    let n = chapters.len();
    let mut i: usize = 0;
    #[verifier::loop_isolation(false)]
    while i < n
        invariant
            i <= n,
            package_metadata(*package) == package_metadata(*old(package)),
            package_stylesheet(*package) == package_stylesheet(*old(package)),
            package_entries(*package) == package_entries(*old(package)) + chapter_entries(
                chapters@.subrange(0, i as int),
            ),
        decreases n - i,
    {
        let ghost done = chapters@.subrange(0, i as int);
        let chapter = &chapters[i];
        let file_name = chapter_file_name(chapter.ordinal);
        match package.add_chapter(file_name.as_str(), chapter.title.as_str(), chapter.body.as_str())
        {
            Ok(()) => {},
            Err(e) => {
                proof {
                    assert(package_entries(*package) == package_entries(*old(package))
                        + chapter_entries(chapters@.subrange(0, i as int)));
                }
                return Err(e);
            },
        }
        proof {
            assert(chapters@.subrange(0, i + 1) =~= done.push(chapters@[i as int]));
            assert(chapter_entries(done.push(chapters@[i as int])) =~= chapter_entries(done).push(
                chapter_entry(chapters@[i as int]),
            ));
            assert(package_entries(*package) =~= package_entries(*old(package)) + chapter_entries(
                chapters@.subrange(0, i + 1),
            ));
        }
        i = i + 1;
    }
    proof {
        assert(chapters@.subrange(0, n as int) =~= chapters@);
    }
    Ok(())
}

/// Build a package fed exactly what the work demands: the work's author and
/// name and the fixed language recorded as metadata, in that order, the
/// shared stylesheet recorded, and one page per chapter in the order given,
/// each under its ordinal's page name. Any failure of the outside builder
/// aborts the preparation with that failure's description.
pub fn prepare_package(work: &Work) -> (r: Result<EpubPackage, String>)
    requires
        forall|i: int| 0 <= i < work.chapters@.len() ==> (#[trigger] work.chapters@[i]).ordinal
            >= 0,
    ensures
        r matches Ok(p) ==> package_entries(p) == chapter_entries(work.chapters@)
            && package_metadata(p) == seq![
            ("author"@, work.author@),
            ("title"@, work.name@),
            ("lang"@, "ja-JP"@),
        ] && package_stylesheet(p) == Some(crate::content::stylesheet_text()),
{
    let zip = match new_zip_library() {
        Ok(zip) => zip,
        Err(e) => {
            return Err(e);
        },
    };
    let mut package = match EpubPackage::create(zip) {
        Ok(package) => package,
        Err(e) => {
            return Err(e);
        },
    };
    match package.set_metadata("author", work.author.as_str()) {
        Ok(()) => {},
        Err(e) => {
            return Err(e);
        },
    }
    match package.set_metadata("title", work.name.as_str()) {
        Ok(()) => {},
        Err(e) => {
            return Err(e);
        },
    }
    match package.set_metadata("lang", "ja-JP") {
        Ok(()) => {},
        Err(e) => {
            return Err(e);
        },
    }
    match package.set_stylesheet(stylesheet()) {
        Ok(()) => {},
        Err(e) => {
            return Err(e);
        },
    }
    match fill_package(&mut package, &work.chapters) {
        Ok(()) => {},
        Err(e) => {
            return Err(e);
        },
    }
    proof {
        assert(package_metadata(package) =~= seq![
            ("author"@, work.author@),
            ("title"@, work.name@),
            ("lang"@, "ja-JP"@),
        ]);
        assert(package_entries(package) =~= chapter_entries(work.chapters@));
    }
    Ok(package)
}

/// Render an assembled work into its container bytes: a package prepared as
/// [`prepare_package`] states, an inline table of contents, and the outside
/// builder's rendering. The bytes come from the builder and are handed on
/// as they are; any failure aborts the rendering with its description.
pub fn render_package(work: &Work) -> (r: Result<Vec<u8>, String>)
    requires
        forall|i: int| 0 <= i < work.chapters@.len() ==> (#[trigger] work.chapters@[i]).ordinal
            >= 0,
{
    let mut package = match prepare_package(work) {
        Ok(package) => package,
        Err(e) => {
            return Err(e);
        },
    };
    package.set_inline_toc();
    package.generate()
}

} // verus!
