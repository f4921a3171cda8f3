//! What to report of a package, and the report itself.

use crate::crates::{
    describes, field_text, keywords_text, optional_field_text, summary_text, versions_text, Crate,
    CrateView,
};
use crate::document::{pretty, pretty_text, read, read_json};
use crate::text::decimal;
use vstd::prelude::*;
use vstd::string::*;

verus! {

/// The width of an indent where a document is written over several lines.
pub const INDENT: u16 = 4;

/// How many versions a single request for the history shows.
pub const RECENT: usize = 5;

/// One thing that a report can show of a package.
#[derive(Clone, Copy, Debug, PartialEq, Eq, Structural)]
pub enum Flag {
    Repository,
    Documentation,
    Downloads,
    Homepage,
    Default,
}

/// What the command line asked for: each switch as given, and how often
/// the history of versions was asked for.
pub struct Matches {
    pub repository: bool,
    pub documentation: bool,
    pub downloads: bool,
    pub homepage: bool,
    pub verbose: bool,
    pub json: bool,
    pub versions: u64,
    pub keywords: bool,
}

/// What to report: the things to show in their order, never none; whether
/// to show them at length; whether to show the registry's document as it
/// is; how many versions of the history to show; whether to show the
/// keywords.
pub struct Report {
    flags: Vec<Flag>,
    verbose: bool,
    json: bool,
    versions: usize,
    keywords: bool,
}

/// A `Report` as plain values.
pub struct ReportView {
    pub flags: Seq<Flag>,
    pub verbose: bool,
    pub json: bool,
    pub versions: usize,
    pub keywords: bool,
}

impl View for Report {
    type V = ReportView;

    closed spec fn view(&self) -> ReportView {
        ReportView {
            flags: self.flags@,
            verbose: self.verbose,
            json: self.json,
            versions: self.versions,
            keywords: self.keywords,
        }
    }
}

/// `flag` alone where `wanted` is set, nothing where it is not.
pub open spec fn one_if(wanted: bool, flag: Flag) -> Seq<Flag> {
    if wanted {
        seq![flag]
    } else {
        Seq::empty()
    }
}

/// The single things that a command line asks for, in the order in which a
/// report shows them.
pub open spec fn picked_flags(m: Matches) -> Seq<Flag> {
    one_if(m.repository, Flag::Repository) + one_if(m.documentation, Flag::Documentation) + one_if(
        m.downloads,
        Flag::Downloads,
    ) + one_if(m.homepage, Flag::Homepage)
}

/// The things that a report shows for a command line: the single things it
/// asks for, and the summary where it asks for none.
pub open spec fn chosen_flags(m: Matches) -> Seq<Flag> {
    if picked_flags(m).len() == 0 {
        seq![Flag::Default]
    } else {
        picked_flags(m)
    }
}

/// A report never shows nothing: a command line that asks for no single
/// thing gets the summary, and that alone. The summary stands in for the
/// single things only, never beside one.
pub proof fn lemma_flags_default(m: Matches)
    ensures
        chosen_flags(m).len() > 0,
        !m.repository && !m.documentation && !m.downloads && !m.homepage ==> chosen_flags(m)
            == seq![Flag::Default],
        m.repository || m.documentation || m.downloads || m.homepage ==> chosen_flags(m)
            == picked_flags(m) && !chosen_flags(m).contains(Flag::Default),
{
    if !m.repository && !m.documentation && !m.downloads && !m.homepage {
        assert(picked_flags(m) =~= Seq::empty());
    }
}

/// How many versions to show where the history was asked for `repeats`
/// times: none, the recent ones, or all that there can be.
pub open spec fn depth(repeats: u64) -> usize {
    if repeats == 0 {
        0
    } else if repeats == 1 {
        RECENT
    } else {
        usize::MAX
    }
}

/// A history never asked for shows no version, one asked for once shows
/// five, and one asked for more often shows every version, however many
/// there are, and no hint.
pub proof fn lemma_depth(repeats: u64, c: Crate)
    ensures
        depth(0) == 0,
        depth(1) == 5,
        repeats >= 2 ==> depth(repeats) >= c@.versions.len(),
        repeats >= 2 ==> history_text(c@, depth(repeats)) == crate::crates::version_header()
            + crate::crates::version_rows(c@.versions),
        history_text(c@, depth(0)).len() == 0,
{
    assert(c@.versions.len() == c.versions@.len());
    vstd::std_specs::vec::axiom_spec_len(&c.versions);
    crate::crates::lemma_versions_limit(c@.versions, usize::MAX as nat);
}

/// What a report shows of a package for one flag.
pub open spec fn flag_text(flag: Flag, c: CrateView, verbose: bool) -> Seq<char> {
    match flag {
        Flag::Repository => optional_field_text("Repository:"@, c.krate.repository, verbose),
        Flag::Documentation => optional_field_text(
            "Documentation:"@,
            c.krate.documentation,
            verbose,
        ),
        Flag::Downloads => field_text("Downloads:"@, decimal(c.krate.downloads as nat), verbose),
        Flag::Homepage => optional_field_text("Homepage:"@, c.krate.homepage, verbose),
        Flag::Default => summary_text(c.krate, verbose) + "\n"@,
    }
}

/// What a report shows of a package for the given flags, one after another.
pub open spec fn flags_text(flags: Seq<Flag>, c: CrateView, verbose: bool) -> Seq<char>
    decreases flags.len(),
{
    if flags.len() == 0 {
        Seq::empty()
    } else {
        flags_text(flags.drop_last(), c, verbose) + flag_text(flags.last(), c, verbose)
    }
}

/// The history of versions as a report shows it: nothing for a limit of
/// zero, the list limited to `limit` otherwise.
pub open spec fn history_text(c: CrateView, limit: usize) -> Seq<char> {
    if limit > 0 {
        versions_text(c.versions, limit as nat)
    } else {
        Seq::empty()
    }
}

/// What a report shows of a package: the history where it was asked for,
/// else the keywords where they were asked for, else the flags.
pub open spec fn package_text(r: ReportView, c: CrateView) -> Seq<char> {
    if r.versions > 0 {
        history_text(c, r.versions)
    } else if r.keywords {
        keywords_text(c, r.verbose)
    } else {
        flags_text(r.flags, c, r.verbose)
    }
}

/// The registry's answer as a report shows it where the document itself was
/// asked for: over several lines where `verbose` is set, and then nothing if
/// the answer cannot be read as JSON; letter for letter where it is not.
pub open spec fn document_text(body: Seq<char>, verbose: bool) -> Seq<char> {
    if verbose {
        match read_json(body) {
            Some(tree) => pretty_text(tree, INDENT) + "\n"@,
            None => Seq::empty(),
        }
    } else {
        body + "\n"@
    }
}

/// Whether `out` is a report on the answer `body` of the registry. Where
/// the document itself was asked for, `out` is that. Else an answer that
/// cannot be read as JSON shows nothing, and one that can shows the package
/// that it describes.
pub open spec fn reports(r: ReportView, body: Seq<char>, out: Seq<char>) -> bool {
    if r.json {
        out == document_text(body, r.verbose)
    } else {
        match read_json(body) {
            Some(tree) => exists|c: CrateView| describes(tree, c) && out == package_text(r, c),
            None => out.len() == 0,
        }
    }
}

/// The line that tells of a fetch that failed.
pub open spec fn failure_text(message: Seq<char>) -> Seq<char> {
    "network error: "@ + message + "\n"@
}

/// The address under which the registry describes the package `name`.
pub open spec fn address(name: Seq<char>) -> Seq<char> {
    "http://crates.io/api/v1/crates/"@ + name
}

/// Writes the address under which the registry describes a package.
pub fn address_of(name: &str) -> (out: String)
    ensures
        out@ == address(name@),
{
    let mut out = String::from_str("http://crates.io/api/v1/crates/");
    out.append(name);
    out
}

/// Reads the package that an answer of the registry describes, if the
/// answer can be read as JSON at all.
pub fn get_crate(body: &str) -> (out: Option<Crate>)
    ensures
        match read_json(body@) {
            Some(tree) => out matches Some(c) && describes(tree, c@),
            None => out is None,
        },
{
    match read(body) {
        Some(document) => Some(Crate::new(&document)),
        None => None,
    }
}

/// The summary of a package as a report shows it: with the end of its last
/// line.
pub fn reportv(krate: &Crate, verbose: bool) -> (out: String)
    ensures
        out@ == summary_text(krate@.krate, verbose) + "\n"@,
{
    let mut out = krate.summary(verbose);
    out.append("\n");
    out
}

impl Report {
    #[verifier::type_invariant]
    spec fn never_empty(self) -> bool {
        self.flags@.len() > 0
    }

    /// Settles what to report for a command line.
    pub fn new(info: &Matches) -> (out: Report)
        ensures
            out@.flags == chosen_flags(*info),
            out@.verbose == info.verbose,
            out@.json == info.json,
            out@.versions == depth(info.versions),
            out@.keywords == info.keywords,
    {
        let mut flags: Vec<Flag> = Vec::new();
        if info.repository {
            flags.push(Flag::Repository);
        }
        assert(flags@ =~= one_if(info.repository, Flag::Repository));
        if info.documentation {
            flags.push(Flag::Documentation);
        }
        assert(flags@ =~= one_if(info.repository, Flag::Repository) + one_if(
            info.documentation,
            Flag::Documentation,
        ));
        if info.downloads {
            flags.push(Flag::Downloads);
        }
        assert(flags@ =~= one_if(info.repository, Flag::Repository) + one_if(
            info.documentation,
            Flag::Documentation,
        ) + one_if(info.downloads, Flag::Downloads));
        if info.homepage {
            flags.push(Flag::Homepage);
        }
        assert(flags@ =~= picked_flags(*info));

        if flags.len() == 0 {
            flags.push(Flag::Default);
        }
        assert(flags@ =~= chosen_flags(*info));

        let versions: usize = if info.versions == 0 {
            0
        } else if info.versions == 1 {
            RECENT
        } else {
            usize::MAX
        };

        Report {
            flags,
            verbose: info.verbose,
            json: info.json,
            versions,
            keywords: info.keywords,
        }
    }

    /// The things to show, in their order. There is always at least one.
    pub fn flags(&self) -> (out: &Vec<Flag>)
        ensures
            out@ == self@.flags,
            out@.len() > 0,
    {
        proof {
            use_type_invariant(self);
        }
        &self.flags
    }

    /// Whether to show things at length.
    pub fn verbose(&self) -> (out: bool)
        ensures
            out == self@.verbose,
    {
        self.verbose
    }

    /// Whether to show the registry's document as it is.
    pub fn json(&self) -> (out: bool)
        ensures
            out == self@.json,
    {
        self.json
    }

    /// How many versions of the history to show.
    pub fn versions(&self) -> (out: usize)
        ensures
            out == self@.versions,
    {
        self.versions
    }

    /// Whether to show the keywords.
    pub fn keywords(&self) -> (out: bool)
        ensures
            out == self@.keywords,
    {
        self.keywords
    }

    /// Reports on what a fetch from the registry brought for the package
    /// `name`. An answer gives the text of the report; a fetch that failed
    /// gives the line that tells of it, and nothing is shown of the package.
    /// The name plays no part in either.
    #[allow(unused_variables)]
    pub fn report(&self, name: &str, fetched: Result<String, String>) -> (out: Result<
        String,
        String,
    >)
        ensures
            match fetched {
                Ok(body) => out matches Ok(text) && reports(self@, body@, text@),
                Err(message) => out matches Err(line) && line@ == failure_text(message@),
            },
    {
        match fetched {
            Ok(body) => {
                if self.json {
                    Ok(self.report_json(body.as_str()))
                } else {
                    match get_crate(body.as_str()) {
                        Some(krate) => Ok(self.report_package(&krate)),
                        None => Ok(String::new()),
                    }
                }
            },
            Err(message) => {
                let mut line = String::from_str("network error: ");
                line.append(message.as_str());
                line.append("\n");
                Err(line)
            },
        }
    }

    /// Reports on a package: its history where that was asked for, else its
    /// keywords where they were asked for, else the flags.
    pub fn report_package(&self, krate: &Crate) -> (out: String)
        ensures
            out@ == package_text(self@, krate@),
    {
        if self.versions > 0 {
            self.report_versions(krate, self.versions)
        } else if self.keywords {
            self.report_keywords(krate)
        } else {
            self.report_crate(krate)
        }
    }

    /// Shows the registry's answer itself.
    pub fn report_json(&self, body: &str) -> (out: String)
        ensures
            out@ == document_text(body@, self@.verbose),
    {
        if self.verbose {
            match read(body) {
                Some(document) => {
                    let mut out = pretty(&document, INDENT);
                    out.append("\n");
                    out
                },
                None => String::new(),
            }
        } else {
            let mut out = String::from_str(body);
            out.append("\n");
            out
        }
    }

    /// Shows of a package what each flag asks for, in the order of the
    /// flags.
    pub fn report_crate(&self, krate: &Crate) -> (out: String)
        ensures
            out@ == flags_text(self@.flags, krate@, self@.verbose),
    {
        let mut out = String::new();
        let mut i: usize = 0;
        assert(self.flags@.take(0) =~= Seq::empty());
        while i < self.flags.len()
            invariant
                i <= self.flags.len(),
                out@ == flags_text(self.flags@.take(i as int), krate@, self.verbose),
            decreases self.flags.len() - i,
        {
            let shown = match self.flags[i] {
                Flag::Repository => krate.print_repository(self.verbose),
                Flag::Documentation => krate.print_documentation(self.verbose),
                Flag::Downloads => krate.print_downloads(self.verbose),
                Flag::Homepage => krate.print_homepage(self.verbose),
                Flag::Default => reportv(krate, self.verbose),
            };
            out.append(shown.as_str());
            proof {
                assert(self.flags@.take(i + 1).drop_last() =~= self.flags@.take(i as int));
                assert(self.flags@.take(i + 1).last() == self.flags@[i as int]);
            }
            i = i + 1;
        }
        assert(self.flags@.take(i as int) =~= self.flags@);
        out
    }

    /// Shows the history of a package, limited to `limit` versions, and
    /// nothing for a limit of zero.
    pub fn report_versions(&self, krate: &Crate, limit: usize) -> (out: String)
        ensures
            out@ == history_text(krate@, limit),
    {
        if limit > 0 {
            krate.print_last_versions(limit, self.verbose)
        } else {
            String::new()
        }
    }

    /// Shows the keywords of a package.
    pub fn report_keywords(&self, krate: &Crate) -> (out: String)
        ensures
            out@ == keywords_text(krate@, self@.verbose),
    {
        krate.print_keywords(self.verbose)
    }
}

} // verus!
