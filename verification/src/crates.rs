//! One package as the registry describes it, and the texts that show it.

use crate::document::{
    as_str, compact_text, count_field, dump, flag_field, json_tree, member, members,
    strings_among, text_field, texts_field, JsonTree,
};
use crate::text::{decimal, decimal_string, pad, padded, quoted, quoted_list, texts};
use crate::timestamp::{instant_held, TimeStamp, TimeStampView};
use vstd::prelude::*;
use vstd::string::*;

verus! {

/// The width of the column that holds a label.
pub const LABEL_WIDTH: usize = 16;

/// The width of the column that holds a version number.
pub const VERSION_WIDTH: usize = 10;

/// The width of the column that holds a release date.
pub const DATE_WIDTH: usize = 22;

/// The width of the column that holds a count of downloads.
pub const DOWNLOADS_WIDTH: usize = 11;

/// What the registry says of the package itself. A text that the registry
/// left out is empty, a count that it left out is zero.
pub struct PackageRecord {
    pub name: String,
    pub max_version: String,
    pub description: String,
    pub downloads: u64,
    pub homepage: String,
    pub documentation: String,
    pub repository: String,
    pub license: String,
    pub keywords: Vec<String>,
    pub created_at: TimeStamp,
    pub updated_at: TimeStamp,
}

/// One published version of the package.
pub struct VersionEntry {
    pub num: String,
    pub created_at: TimeStamp,
    pub downloads: u64,
    pub yanked: bool,
}

/// One keyword of the package, with the number of packages that carry it.
pub struct KeywordEntry {
    pub keyword: String,
    pub crates_cnt: u64,
}

/// A package: its record, its versions in the registry's order, and its
/// keywords, these also as the registry wrote the list.
pub struct Crate {
    pub krate: PackageRecord,
    pub versions: Vec<VersionEntry>,
    pub keywords: Vec<KeywordEntry>,
    pub keywords_text: String,
}

/// A `PackageRecord` as plain texts and numbers.
pub struct RecordView {
    pub name: Seq<char>,
    pub max_version: Seq<char>,
    pub description: Seq<char>,
    pub downloads: u64,
    pub homepage: Seq<char>,
    pub documentation: Seq<char>,
    pub repository: Seq<char>,
    pub license: Seq<char>,
    pub keywords: Seq<Seq<char>>,
    pub created_at: TimeStampView,
    pub updated_at: TimeStampView,
}

/// A `VersionEntry` as plain texts and numbers.
pub struct VersionView {
    pub num: Seq<char>,
    pub created_at: TimeStampView,
    pub downloads: u64,
    pub yanked: bool,
}

/// A `KeywordEntry` as plain text and number.
pub struct KeywordView {
    pub keyword: Seq<char>,
    pub crates_cnt: u64,
}

/// A `Crate` as plain texts and numbers.
pub struct CrateView {
    pub krate: RecordView,
    pub versions: Seq<VersionView>,
    pub keywords: Seq<KeywordView>,
    pub keywords_text: Seq<char>,
}

impl View for PackageRecord {
    type V = RecordView;

    open spec fn view(&self) -> RecordView {
        RecordView {
            name: self.name@,
            max_version: self.max_version@,
            description: self.description@,
            downloads: self.downloads,
            homepage: self.homepage@,
            documentation: self.documentation@,
            repository: self.repository@,
            license: self.license@,
            keywords: texts(self.keywords@),
            created_at: self.created_at@,
            updated_at: self.updated_at@,
        }
    }
}

impl View for VersionEntry {
    type V = VersionView;

    open spec fn view(&self) -> VersionView {
        VersionView {
            num: self.num@,
            created_at: self.created_at@,
            downloads: self.downloads,
            yanked: self.yanked,
        }
    }
}

impl View for KeywordEntry {
    type V = KeywordView;

    open spec fn view(&self) -> KeywordView {
        KeywordView { keyword: self.keyword@, crates_cnt: self.crates_cnt }
    }
}

impl View for Crate {
    type V = CrateView;

    open spec fn view(&self) -> CrateView {
        CrateView {
            krate: self.krate@,
            versions: self.versions@.map_values(|v: VersionEntry| v@),
            keywords: self.keywords@.map_values(|k: KeywordEntry| k@),
            keywords_text: self.keywords_text@,
        }
    }
}

/// Whether `stamp` shows the point in time that `tree` names: where `tree`
/// names one that the report shows, `stamp` holds its date and time in some
/// time zone and its distance from some reading of a clock, and where it
/// names none, `stamp` is blank.
pub open spec fn stamp_fits(tree: JsonTree, stamp: TimeStampView) -> bool {
    stamp.renders(instant_held(tree))
}

/// Whether `record` is what the section `tree` of a document says of a
/// package: each text and count as the section gives it, with the defaults
/// for what it leaves out.
pub open spec fn record_fits(tree: JsonTree, record: RecordView) -> bool {
    &&& record.name == tree.member("name"@).text()
    &&& record.max_version == tree.member("max_version"@).text()
    &&& record.description == tree.member("description"@).text()
    &&& record.downloads == tree.member("downloads"@).count()
    &&& record.homepage == tree.member("homepage"@).text()
    &&& record.documentation == tree.member("documentation"@).text()
    &&& record.repository == tree.member("repository"@).text()
    &&& record.license == tree.member("license"@).text()
    &&& record.keywords == strings_among(tree.member("keywords"@).members())
    &&& stamp_fits(tree.member("created_at"@), record.created_at)
    &&& stamp_fits(tree.member("updated_at"@), record.updated_at)
}

/// Whether `version` is what the member `tree` of a document's list of
/// versions says.
pub open spec fn version_fits(tree: JsonTree, version: VersionView) -> bool {
    &&& version.num == tree.member("num"@).text()
    &&& version.downloads == tree.member("downloads"@).count()
    &&& version.yanked == tree.member("yanked"@).flag()
    &&& stamp_fits(tree.member("created_at"@), version.created_at)
}

/// The keyword that the member `tree` of a document's list of keywords
/// describes. A member that is a string is itself the name of the keyword;
/// any other member carries the name in a field.
pub open spec fn keyword_of(tree: JsonTree) -> KeywordView {
    KeywordView {
        keyword: if tree is Text {
            tree.text()
        } else {
            tree.member("keyword"@).text()
        },
        crates_cnt: tree.member("crates_cnt"@).count(),
    }
}

/// Whether `c` is the package that the document `tree` describes. The
/// document fixes everything but the time zone and the reading of the clock
/// by which each timestamp is shown, which are the machine's.
pub open spec fn describes(tree: JsonTree, c: CrateView) -> bool {
    &&& record_fits(tree.member("crate"@), c.krate)
    &&& c.versions.len() == tree.member("versions"@).members().len()
    &&& forall|i: int|
        0 <= i < c.versions.len() ==> version_fits(
            tree.member("versions"@).members()[i],
            #[trigger] c.versions[i],
        )
    &&& c.keywords == tree.member("keywords"@).members().map_values(|t: JsonTree| keyword_of(t))
    &&& c.keywords_text == compact_text(tree.member("keywords"@))
}

/// A value behind its label, the label in its column.
pub open spec fn labelled(label: Seq<char>, value: Seq<char>) -> Seq<char> {
    padded(label, LABEL_WIDTH as nat) + value
}

/// The line that shows one field: the value behind its label where
/// `verbose` is set, the value alone where it is not.
pub open spec fn field_text(label: Seq<char>, value: Seq<char>, verbose: bool) -> Seq<char> {
    (if verbose {
        labelled(label, value)
    } else {
        value
    }) + "\n"@
}

/// What shows a field that may be absent: its line, and nothing at all
/// where the value is empty.
pub open spec fn optional_field_text(label: Seq<char>, value: Seq<char>, verbose: bool) -> Seq<
    char,
> {
    if value.len() == 0 {
        Seq::empty()
    } else {
        field_text(label, value, verbose)
    }
}

/// The seven lines that every summary starts with, without the end of the
/// last line.
pub open spec fn summary_head(r: RecordView) -> Seq<char> {
    labelled("Crate:"@, r.name) + "\n"@ + labelled("Version:"@, r.max_version) + "\n"@ + labelled(
        "Description:"@,
        r.description,
    ) + "\n"@ + labelled("Downloads:"@, decimal(r.downloads as nat)) + "\n"@ + labelled(
        "Homepage:"@,
        r.homepage,
    ) + "\n"@ + labelled("Documentation:"@, r.documentation) + "\n"@ + labelled(
        "Repository:"@,
        r.repository,
    )
}

/// The summary of a package, without the end of its last line. Where
/// `verbose` is set, licence, keywords and both dates follow the seven lines
/// of the head; where it is not, the time since the last update does.
pub open spec fn summary_text(r: RecordView, verbose: bool) -> Seq<char> {
    if verbose {
        summary_head(r) + "\n"@ + labelled("License:"@, r.license) + "\n"@ + labelled(
            "Keywords:"@,
            quoted(r.keywords),
        ) + "\n"@ + labelled("Created at:"@, r.created_at.absolute) + "\n"@ + labelled(
            "Updated at:"@,
            r.updated_at.absolute,
        )
    } else {
        summary_head(r) + "\n"@ + labelled("Last updated:"@, r.updated_at.relative)
    }
}

/// The two lines above the list of versions: the names of the three
/// columns, and an empty line.
pub open spec fn version_header() -> Seq<char> {
    padded("VERSION"@, VERSION_WIDTH as nat) + padded("RELEASE DATE"@, DATE_WIDTH as nat) + padded(
        "DOWNLOADS"@,
        DOWNLOADS_WIDTH as nat,
    ) + "\n"@ + "\n"@
}

/// The line of one version: number, local release date and downloads in
/// their columns, and a mark behind them where the version was yanked.
pub open spec fn version_row(v: VersionView) -> Seq<char> {
    padded(v.num, VERSION_WIDTH as nat) + padded(v.created_at.absolute, DATE_WIDTH as nat) + padded(
        decimal(v.downloads as nat),
        DOWNLOADS_WIDTH as nat,
    ) + (if v.yanked {
        "(yanked)"@
    } else {
        Seq::empty()
    }) + "\n"@
}

/// The lines of the given versions, in their order.
pub open spec fn version_rows(versions: Seq<VersionView>) -> Seq<char>
    decreases versions.len(),
{
    if versions.len() == 0 {
        Seq::empty()
    } else {
        version_rows(versions.drop_last()) + version_row(versions.last())
    }
}

/// The two lines that say how many versions there are in all.
pub open spec fn versions_hint(total: nat) -> Seq<char> {
    "\n... use -VV to show all "@ + decimal(total) + " versions\n"@
}

/// How many versions a list limited to `limit` shows of `total`.
pub open spec fn rows_shown(total: nat, limit: nat) -> nat {
    if limit < total {
        limit
    } else {
        total
    }
}

/// The list of versions, limited to `limit` of them: the header and the
/// first `limit` versions unless `limit` is zero, then the hint where there
/// are more versions than `limit`.
pub open spec fn versions_text(versions: Seq<VersionView>, limit: nat) -> Seq<char> {
    (if limit == 0 {
        Seq::empty()
    } else {
        version_header() + version_rows(versions.take(rows_shown(versions.len(), limit) as int))
    }) + (if limit < versions.len() {
        versions_hint(versions.len())
    } else {
        Seq::empty()
    })
}

/// The names of the given keywords, in their order.
pub open spec fn keyword_names(keywords: Seq<KeywordView>) -> Seq<Seq<char>> {
    keywords.map_values(|k: KeywordView| k.keyword)
}

/// The line that shows the keywords: their names as a list of quoted texts
/// where `verbose` is set, the list as the registry wrote it where it is not.
pub open spec fn keywords_text(c: CrateView, verbose: bool) -> Seq<char> {
    (if verbose {
        quoted(keyword_names(c.keywords))
    } else {
        c.keywords_text
    }) + "\n"@
}

/// A field that a document leaves out, or gives as null, reads as the empty
/// text.
pub proof fn lemma_missing_reads_empty(section: JsonTree, key: Seq<char>)
    requires
        !section.has_key(key) || section.member(key) is Null,
    ensures
        section.member(key).text().len() == 0,
{
    if let JsonTree::Object(entries) = section {
        if !section.has_key(key) {
            crate::document::lemma_lookup_absent(entries, key);
        }
    }
}

/// A package shows nothing for its home page, its documentation or its
/// repository where the document that describes it leaves that field out or
/// gives it as null, at length or not.
pub proof fn lemma_missing_url_shows_nothing(tree: JsonTree, c: CrateView, verbose: bool)
    requires
        describes(tree, c),
    ensures
        !tree.member("crate"@).has_key("homepage"@) || tree.member("crate"@).member("homepage"@)
            is Null ==> optional_field_text("Homepage:"@, c.krate.homepage, verbose).len() == 0,
        !tree.member("crate"@).has_key("documentation"@) || tree.member("crate"@).member(
            "documentation"@,
        ) is Null ==> optional_field_text("Documentation:"@, c.krate.documentation, verbose).len()
            == 0,
        !tree.member("crate"@).has_key("repository"@) || tree.member("crate"@).member(
            "repository"@,
        ) is Null ==> optional_field_text("Repository:"@, c.krate.repository, verbose).len() == 0,
{
    let section = tree.member("crate"@);
    if !section.has_key("homepage"@) || section.member("homepage"@) is Null {
        lemma_missing_reads_empty(section, "homepage"@);
    }
    if !section.has_key("documentation"@) || section.member("documentation"@) is Null {
        lemma_missing_reads_empty(section, "documentation"@);
    }
    if !section.has_key("repository"@) || section.member("repository"@) is Null {
        lemma_missing_reads_empty(section, "repository"@);
    }
}

/// A label that fits its column takes exactly the width of the column, so
/// that the value behind it starts at the same place in every line.
pub proof fn lemma_label_column(label: Seq<char>, value: Seq<char>)
    requires
        label.len() <= LABEL_WIDTH,
    ensures
        labelled(label, value).len() == LABEL_WIDTH + value.len(),
        labelled(label, value).subrange(0, label.len() as int) == label,
        labelled(label, value).subrange(LABEL_WIDTH as int, LABEL_WIDTH + value.len()) == value,
        forall|i: int| label.len() <= i < LABEL_WIDTH ==> labelled(label, value)[i] == ' ',
{
    crate::text::lemma_padded(label, LABEL_WIDTH as nat);
    assert(labelled(label, value).subrange(0, label.len() as int) =~= label);
    assert(labelled(label, value).subrange(LABEL_WIDTH as int, LABEL_WIDTH + value.len())
        =~= value);
}

/// The downloads are shown for every count: at length as the label in its
/// column of sixteen and the count in decimal, else as the count alone, and
/// either way as one line.
pub proof fn lemma_downloads_line(n: u64)
    ensures
        field_text("Downloads:"@, decimal(n as nat), true) == "Downloads:      "@ + decimal(
            n as nat,
        ) + "\n"@,
        field_text("Downloads:"@, decimal(n as nat), false) == decimal(n as nat) + "\n"@,
{
    reveal_strlit("Downloads:");
    reveal_strlit("Downloads:      ");
    assert(padded("Downloads:"@, LABEL_WIDTH as nat) =~= "Downloads:      "@);
}

/// A list of versions limited to as many as there are, or to more, shows
/// them all and no hint. One limited to fewer shows as many as the limit
/// says, the first ones, and then the hint with the number of all. The
/// header stands above the versions unless the limit is zero.
pub proof fn lemma_versions_limit(versions: Seq<VersionView>, limit: nat)
    ensures
        limit >= versions.len() ==> rows_shown(versions.len(), limit) == versions.len(),
        limit < versions.len() ==> rows_shown(versions.len(), limit) == limit,
        limit >= versions.len() && limit > 0 ==> versions_text(versions, limit) == version_header()
            + version_rows(versions),
        0 < limit < versions.len() ==> versions_text(versions, limit) == version_header()
            + version_rows(versions.take(limit as int)) + "\n... use -VV to show all "@ + decimal(
            versions.len(),
        ) + " versions\n"@,
        limit == 0 && versions.len() > 0 ==> versions_text(versions, limit)
            == "\n... use -VV to show all "@ + decimal(versions.len()) + " versions\n"@,
        limit == 0 && versions.len() == 0 ==> versions_text(versions, limit).len() == 0,
{
    assert(versions.take(versions.len() as int) =~= versions);
    if limit >= versions.len() && limit > 0 {
        assert(versions_text(versions, limit) =~= version_header() + version_rows(versions));
    }
    if 0 < limit < versions.len() {
        assert(versions_text(versions, limit) =~= version_header() + version_rows(
            versions.take(limit as int),
        ) + "\n... use -VV to show all "@ + decimal(versions.len()) + " versions\n"@);
    }
    if limit == 0 && versions.len() > 0 {
        assert(versions_text(versions, limit) =~= "\n... use -VV to show all "@ + decimal(
            versions.len(),
        ) + " versions\n"@);
    }
}

/// Two packages that hold the same texts and numbers are shown alike,
/// whatever else may tell them apart: so a package shown twice gives the same
/// text twice.
pub proof fn lemma_shown_alike(a: Crate, b: Crate, verbose: bool, limit: nat)
    requires
        a@ == b@,
    ensures
        summary_text(a@.krate, verbose) == summary_text(b@.krate, verbose),
        versions_text(a@.versions, limit) == versions_text(b@.versions, limit),
        keywords_text(a@, verbose) == keywords_text(b@, verbose),
        optional_field_text("Repository:"@, a@.krate.repository, verbose) == optional_field_text(
            "Repository:"@,
            b@.krate.repository,
            verbose,
        ),
        optional_field_text("Documentation:"@, a@.krate.documentation, verbose)
            == optional_field_text("Documentation:"@, b@.krate.documentation, verbose),
        optional_field_text("Homepage:"@, a@.krate.homepage, verbose) == optional_field_text(
            "Homepage:"@,
            b@.krate.homepage,
            verbose,
        ),
        field_text("Downloads:"@, decimal(a@.krate.downloads as nat), verbose) == field_text(
            "Downloads:"@,
            decimal(b@.krate.downloads as nat),
            verbose,
        ),
{
}

/// Writes a value behind its label.
fn labelled_line(label: &str, value: &str) -> (out: String)
    ensures
        out@ == labelled(label@, value@),
{
    let mut out = pad(label, LABEL_WIDTH);
    out.append(value);
    out
}

/// Writes the line that shows one field.
fn field_line(label: &str, value: &str, verbose: bool) -> (out: String)
    ensures
        out@ == field_text(label@, value@, verbose),
{
    let mut out = if verbose {
        labelled_line(label, value)
    } else {
        String::from_str(value)
    };
    out.append("\n");
    out
}

/// Writes what shows a field that may be absent.
fn optional_field_line(label: &str, value: &str, verbose: bool) -> (out: String)
    ensures
        out@ == optional_field_text(label@, value@, verbose),
{
    if value.is_empty() {
        String::new()
    } else {
        field_line(label, value, verbose)
    }
}

impl PackageRecord {
    /// Reads the record of a package from the section of a document that
    /// describes it.
    pub fn new(section: &json::JsonValue) -> (out: PackageRecord)
        ensures
            record_fits(json_tree(*section), out@),
    {
        PackageRecord {
            name: text_field(section, "name"),
            max_version: text_field(section, "max_version"),
            description: text_field(section, "description"),
            downloads: count_field(section, "downloads"),
            homepage: text_field(section, "homepage"),
            documentation: text_field(section, "documentation"),
            repository: text_field(section, "repository"),
            license: text_field(section, "license"),
            keywords: texts_field(section, "keywords"),
            created_at: TimeStamp::from(member(section, "created_at")),
            updated_at: TimeStamp::from(member(section, "updated_at")),
        }
    }
}

impl VersionEntry {
    /// Reads one version from its member of a document's list of versions.
    pub fn new(entry: &json::JsonValue) -> (out: VersionEntry)
        ensures
            version_fits(json_tree(*entry), out@),
    {
        VersionEntry {
            num: text_field(entry, "num"),
            created_at: TimeStamp::from(member(entry, "created_at")),
            downloads: count_field(entry, "downloads"),
            yanked: flag_field(entry, "yanked"),
        }
    }
}

impl KeywordEntry {
    /// Reads one keyword from its member of a document's list of keywords.
    pub fn new(entry: &json::JsonValue) -> (out: KeywordEntry)
        ensures
            out@ == keyword_of(json_tree(*entry)),
    {
        let keyword = match as_str(entry) {
            Some(name) => String::from_str(name),
            None => text_field(entry, "keyword"),
        };
        KeywordEntry { keyword, crates_cnt: count_field(entry, "crates_cnt") }
    }
}

impl Crate {
    /// Reads a package from the document that the registry sent. Whatever
    /// the document leaves out, or gives in another shape than expected,
    /// reads as empty or zero.
    pub fn new(json: &json::JsonValue) -> (out: Crate)
        ensures
            describes(json_tree(*json), out@),
    {
        let ghost tree = json_tree(*json);
        let krate = PackageRecord::new(member(json, "crate"));

        let listed = members(member(json, "versions"));
        let mut versions: Vec<VersionEntry> = Vec::new();
        let mut i: usize = 0;
        while i < listed.len()
            invariant
                i <= listed.len(),
                versions@.len() == i,
                listed@.len() == tree.member("versions"@).members().len(),
                forall|j: int|
                    0 <= j < listed@.len() ==> json_tree(*#[trigger] listed@[j]) == tree.member(
                        "versions"@,
                    ).members()[j],
                forall|j: int|
                    0 <= j < i ==> version_fits(
                        tree.member("versions"@).members()[j],
                        (#[trigger] versions@[j])@,
                    ),
            decreases listed.len() - i,
        {
            let entry: &json::JsonValue = listed[i];
            versions.push(VersionEntry::new(entry));
            i = i + 1;
        }

        let section = member(json, "keywords");
        let named = members(section);
        let mut keywords: Vec<KeywordEntry> = Vec::new();
        let mut k: usize = 0;
        while k < named.len()
            invariant
                k <= named.len(),
                keywords@.len() == k,
                named@.len() == tree.member("keywords"@).members().len(),
                forall|j: int|
                    0 <= j < named@.len() ==> json_tree(*#[trigger] named@[j]) == tree.member(
                        "keywords"@,
                    ).members()[j],
                forall|j: int|
                    0 <= j < k ==> (#[trigger] keywords@[j])@ == keyword_of(
                        tree.member("keywords"@).members()[j],
                    ),
            decreases named.len() - k,
        {
            let entry: &json::JsonValue = named[k];
            keywords.push(KeywordEntry::new(entry));
            k = k + 1;
        }

        let out = Crate { krate, versions, keywords, keywords_text: dump(section) };
        proof {
            assert(out@.keywords =~= tree.member("keywords"@).members().map_values(
                |t: JsonTree| keyword_of(t),
            ));
        }
        out
    }

    /// The line that shows the repository, and nothing where the package
    /// names none.
    pub fn print_repository(&self, verbose: bool) -> (out: String)
        ensures
            out@ == optional_field_text("Repository:"@, self@.krate.repository, verbose),
    {
        optional_field_line("Repository:", self.krate.repository.as_str(), verbose)
    }

    /// The line that shows where the documentation is, and nothing where
    /// the package names no place.
    pub fn print_documentation(&self, verbose: bool) -> (out: String)
        ensures
            out@ == optional_field_text("Documentation:"@, self@.krate.documentation, verbose),
    {
        optional_field_line("Documentation:", self.krate.documentation.as_str(), verbose)
    }

    /// The line that shows how often the package was downloaded.
    pub fn print_downloads(&self, verbose: bool) -> (out: String)
        ensures
            out@ == field_text("Downloads:"@, decimal(self@.krate.downloads as nat), verbose),
    {
        field_line("Downloads:", decimal_string(self.krate.downloads).as_str(), verbose)
    }

    /// The line that shows the home page, and nothing where the package
    /// names none.
    pub fn print_homepage(&self, verbose: bool) -> (out: String)
        ensures
            out@ == optional_field_text("Homepage:"@, self@.krate.homepage, verbose),
    {
        optional_field_line("Homepage:", self.krate.homepage.as_str(), verbose)
    }

    /// The line of one version. It is the same whether or not `verbose` is
    /// set.
    #[allow(unused_variables)]
    pub fn print_version(v: &VersionEntry, verbose: bool) -> (out: String)
        ensures
            out@ == version_row(v@),
    {
        let mut out = pad(v.num.as_str(), VERSION_WIDTH);
        out.append(v.created_at.fmt(false, DATE_WIDTH).as_str());
        out.append(pad(decimal_string(v.downloads).as_str(), DOWNLOADS_WIDTH).as_str());
        if v.yanked {
            out.append("(yanked)");
        }
        out.append("\n");
        assert(out@ =~= version_row(v@));
        out
    }

    /// The two lines above the list of versions. They are the same whether
    /// or not `verbose` is set.
    #[allow(unused_variables)]
    pub fn print_version_header(verbose: bool) -> (out: String)
        ensures
            out@ == version_header(),
    {
        let mut out = pad("VERSION", VERSION_WIDTH);
        out.append(pad("RELEASE DATE", DATE_WIDTH).as_str());
        out.append(pad("DOWNLOADS", DOWNLOADS_WIDTH).as_str());
        out.append("\n");
        out.append("\n");
        out
    }

    /// The list of versions, limited to the first `limit` of them. It is the
    /// same whether or not `verbose` is set.
    pub fn print_last_versions(&self, limit: usize, verbose: bool) -> (out: String)
        ensures
            out@ == versions_text(self@.versions, limit as nat),
    {
        let ghost all = self@.versions;
        let total: usize = self.versions.len();
        let shown: usize = if limit < total {
            limit
        } else {
            total
        };
        let mut out = String::new();
        if limit > 0 {
            out = Crate::print_version_header(verbose);
            let mut i: usize = 0;
            assert(all.take(0) =~= Seq::empty());
            assert(out@ =~= version_header() + version_rows(all.take(0)));
            while i < shown
                invariant
                    i <= shown <= self.versions@.len(),
                    all == self@.versions,
                    out@ == version_header() + version_rows(all.take(i as int)),
                decreases shown - i,
            {
                out.append(Crate::print_version(&self.versions[i], verbose).as_str());
                proof {
                    assert(all.take(i + 1).drop_last() =~= all.take(i as int));
                    assert(all.take(i + 1).last() == self.versions@[i as int]@);
                    assert(out@ =~= version_header() + version_rows(all.take(i + 1)));
                }
                i = i + 1;
            }
        }
        if limit < total {
            out.append("\n... use -VV to show all ");
            out.append(decimal_string(total as u64).as_str());
            out.append(" versions\n");
        }
        assert(out@ =~= versions_text(all, limit as nat));
        out
    }

    /// The line that shows the keywords.
    pub fn print_keywords(&self, verbose: bool) -> (out: String)
        ensures
            out@ == keywords_text(self@, verbose),
    {
        let mut out = if verbose {
            let mut names: Vec<String> = Vec::new();
            let mut i: usize = 0;
            while i < self.keywords.len()
                invariant
                    i <= self.keywords.len(),
                    names@.len() == i,
                    forall|j: int|
                        0 <= j < i ==> (#[trigger] names@[j])@ == self.keywords@[j].keyword@,
                decreases self.keywords.len() - i,
            {
                names.push(self.keywords[i].keyword.clone());
                i = i + 1;
            }
            assert(texts(names@) =~= keyword_names(self@.keywords));
            quoted_list(&names)
        } else {
            self.keywords_text.clone()
        };
        out.append("\n");
        out
    }

    /// The summary of the package, without the end of its last line.
    pub fn summary(&self, verbose: bool) -> (out: String)
        ensures
            out@ == summary_text(self@.krate, verbose),
    {
        let r = &self.krate;
        let mut out = labelled_line("Crate:", r.name.as_str());
        out.append("\n");
        out.append(labelled_line("Version:", r.max_version.as_str()).as_str());
        out.append("\n");
        out.append(labelled_line("Description:", r.description.as_str()).as_str());
        out.append("\n");
        out.append(labelled_line("Downloads:", decimal_string(r.downloads).as_str()).as_str());
        out.append("\n");
        out.append(labelled_line("Homepage:", r.homepage.as_str()).as_str());
        out.append("\n");
        out.append(labelled_line("Documentation:", r.documentation.as_str()).as_str());
        out.append("\n");
        out.append(labelled_line("Repository:", r.repository.as_str()).as_str());
        assert(out@ == summary_head(r@));
        out.append("\n");
        if verbose {
            out.append(labelled_line("License:", r.license.as_str()).as_str());
            out.append("\n");
            out.append(labelled_line("Keywords:", quoted_list(&r.keywords).as_str()).as_str());
            out.append("\n");
            out.append(labelled_line("Created at:", r.created_at.fmt(false, 0).as_str()).as_str());
            out.append("\n");
            out.append(labelled_line("Updated at:", r.updated_at.fmt(false, 0).as_str()).as_str());
        } else {
            out.append(labelled_line("Last updated:", r.updated_at.fmt(true, 0).as_str()).as_str());
        }
        out
    }
}

} // verus!
