//! The document model: maintainers, entries, the two descriptors, and their views.

use vstd::prelude::*;

verus! {

/// A person responsible for a chart.
#[derive(Debug)]
pub struct Maintainer {
    pub email: String,
    pub name: String,
    pub url: String,
}

pub struct MaintainerView {
    pub email: Seq<char>,
    pub name: Seq<char>,
    pub url: Seq<char>,
}

impl View for Maintainer {
    type V = MaintainerView;

    open spec fn view(&self) -> MaintainerView {
        MaintainerView { email: self.email@, name: self.name@, url: self.url@ }
    }
}

pub open spec fn strings_view(v: Seq<String>) -> Seq<Seq<char>> {
    v.map_values(|s: String| s@)
}

pub open spec fn maintainers_view(v: Seq<Maintainer>) -> Seq<MaintainerView> {
    v.map_values(|m: Maintainer| m@)
}

impl Maintainer {
    /// A field-for-field copy.
    pub fn copy(&self) -> (r: Maintainer)
        ensures
            r == *self,
    {
        Maintainer { email: self.email.clone(), name: self.name.clone(), url: self.url.clone() }
    }
}

/// A copy of a list of strings, in the same order.
pub fn copy_strings(v: &Vec<String>) -> (r: Vec<String>)
    ensures
        r@ == v@,
{
    let mut r: Vec<String> = Vec::new();
    let mut i: usize = 0;
    while i < v.len()
        invariant
            i <= v@.len(),
            r@ == v@.subrange(0, i as int),
        decreases v@.len() - i,
    {
        r.push(v[i].clone());
        i = i + 1;
    }
    assert(r@ == v@);
    r
}

/// A copy of a list of maintainers, in the same order.
pub fn copy_maintainers(v: &Vec<Maintainer>) -> (r: Vec<Maintainer>)
    ensures
        r@ == v@,
{
    let mut r: Vec<Maintainer> = Vec::new();
    let mut i: usize = 0;
    while i < v.len()
        invariant
            i <= v@.len(),
            r@ == v@.subrange(0, i as int),
        decreases v@.len() - i,
    {
        r.push(v[i].copy());
        i = i + 1;
    }
    assert(r@ == v@);
    r
}

/// One published release of a chart, as recorded in the index.
#[derive(Debug)]
pub struct ChartEntry {
    pub api_version: String,
    pub app_version: String,
    pub created: String,
    pub description: String,
    pub digest: String,
    pub home: String,
    pub icon: String,
    pub keywords: Vec<String>,
    pub maintainers: Vec<Maintainer>,
    pub name: String,
    pub sources: Vec<String>,
    pub entry_type: String,
    pub urls: Vec<String>,
    pub version: String,
}

pub struct EntryView {
    pub api_version: Seq<char>,
    pub app_version: Seq<char>,
    pub created: Seq<char>,
    pub description: Seq<char>,
    pub digest: Seq<char>,
    pub home: Seq<char>,
    pub icon: Seq<char>,
    pub keywords: Seq<Seq<char>>,
    pub maintainers: Seq<MaintainerView>,
    pub name: Seq<char>,
    pub sources: Seq<Seq<char>>,
    pub entry_type: Seq<char>,
    pub urls: Seq<Seq<char>>,
    pub version: Seq<char>,
}

impl View for ChartEntry {
    type V = EntryView;

    open spec fn view(&self) -> EntryView {
        EntryView {
            api_version: self.api_version@,
            app_version: self.app_version@,
            created: self.created@,
            description: self.description@,
            digest: self.digest@,
            home: self.home@,
            icon: self.icon@,
            keywords: strings_view(self.keywords@),
            maintainers: maintainers_view(self.maintainers@),
            name: self.name@,
            sources: strings_view(self.sources@),
            entry_type: self.entry_type@,
            urls: strings_view(self.urls@),
            version: self.version@,
        }
    }
}

pub open spec fn entries_view(v: Seq<ChartEntry>) -> Seq<EntryView> {
    v.map_values(|e: ChartEntry| e@)
}

/// The static identity of a chart: the values every release of it shares.
#[derive(Debug)]
pub struct Constants {
    pub api_version: String,
    pub app_version: String,
    pub description: String,
    pub home: String,
    pub icon: String,
    pub keywords: Vec<String>,
    pub maintainers: Vec<Maintainer>,
    pub name: String,
    pub sources: Vec<String>,
    pub entry_type: String,
}

pub struct ConstantsView {
    pub api_version: Seq<char>,
    pub app_version: Seq<char>,
    pub description: Seq<char>,
    pub home: Seq<char>,
    pub icon: Seq<char>,
    pub keywords: Seq<Seq<char>>,
    pub maintainers: Seq<MaintainerView>,
    pub name: Seq<char>,
    pub sources: Seq<Seq<char>>,
    pub entry_type: Seq<char>,
}

impl View for Constants {
    type V = ConstantsView;

    open spec fn view(&self) -> ConstantsView {
        ConstantsView {
            api_version: self.api_version@,
            app_version: self.app_version@,
            description: self.description@,
            home: self.home@,
            icon: self.icon@,
            keywords: strings_view(self.keywords@),
            maintainers: maintainers_view(self.maintainers@),
            name: self.name@,
            sources: strings_view(self.sources@),
            entry_type: self.entry_type@,
        }
    }
}

impl Default for Constants {
    /// An example chart, for a user to edit.
    fn default() -> (r: Constants)
        ensures
            r@ == (ConstantsView {
                api_version: "v2"@,
                app_version: "1.0.0"@,
                description: "Test Chart"@,
                home: "https://example.com"@,
                icon: "https://example.com/icon.png"@,
                keywords: seq!["test"@, "chart"@],
                maintainers: seq![MaintainerView {
                    email: "test@example.com"@,
                    name: "Abdulrhman Alkhodiry"@,
                    url: "https://example.com"@,
                }],
                name: "test-chart"@,
                sources: seq!["https://github.com/test/chart"@],
                entry_type: "application"@,
            }),
    {
        let keywords = vec!["test".to_owned(), "chart".to_owned()];
        let maintainers = vec![Maintainer {
            email: "test@example.com".to_owned(),
            name: "Abdulrhman Alkhodiry".to_owned(),
            url: "https://example.com".to_owned(),
        }];
        let sources = vec!["https://github.com/test/chart".to_owned()];
        assert(strings_view(keywords@) =~= seq!["test"@, "chart"@]);
        assert(maintainers_view(maintainers@) =~= seq![maintainers@[0]@]);
        assert(strings_view(sources@) =~= seq!["https://github.com/test/chart"@]);
        Constants {
            api_version: "v2".to_owned(),
            app_version: "1.0.0".to_owned(),
            description: "Test Chart".to_owned(),
            home: "https://example.com".to_owned(),
            icon: "https://example.com/icon.png".to_owned(),
            keywords,
            maintainers,
            name: "test-chart".to_owned(),
            sources,
            entry_type: "application".to_owned(),
        }
    }
}

/// Where a release can be downloaded: a list of locations, or a single one.
#[derive(Debug)]
pub enum Urls {
    List(Vec<String>),
    Single(String),
}

pub enum UrlsView {
    List(Seq<Seq<char>>),
    Single(Seq<char>),
}

impl View for Urls {
    type V = UrlsView;

    open spec fn view(&self) -> UrlsView {
        match self {
            Urls::List(v) => UrlsView::List(strings_view(v@)),
            Urls::Single(s) => UrlsView::Single(s@),
        }
    }
}

/// The download locations as a list: a single location becomes a list of one.
pub open spec fn url_list(u: UrlsView) -> Seq<Seq<char>> {
    match u {
        UrlsView::List(l) => l,
        UrlsView::Single(s) => seq![s],
    }
}

impl Urls {
    /// The download locations as a list, in order.
    pub fn to_list(&self) -> (r: Vec<String>)
        ensures
            strings_view(r@) == url_list(self@),
    {
        match self {
            Urls::List(v) => copy_strings(v),
            Urls::Single(s) => {
                let r = vec![s.clone()];
                assert(strings_view(r@) =~= seq![s@]);
                r
            },
        }
    }
}

/// What one release adds to a chart's identity.
#[derive(Debug)]
pub struct Parameters {
    pub app_version: Option<String>,
    pub digest: String,
    pub version: String,
    pub urls: Urls,
}

pub struct ParametersView {
    pub app_version: Option<Seq<char>>,
    pub digest: Seq<char>,
    pub version: Seq<char>,
    pub urls: UrlsView,
}

impl View for Parameters {
    type V = ParametersView;

    open spec fn view(&self) -> ParametersView {
        ParametersView {
            app_version: match self.app_version {
                Some(s) => Some(s@),
                None => None,
            },
            digest: self.digest@,
            version: self.version@,
            urls: self.urls@,
        }
    }
}

impl Default for Parameters {
    /// An example release, for a user to edit.
    fn default() -> (r: Parameters)
        ensures
            r@ == (ParametersView {
                app_version: None,
                digest: "abc123"@,
                version: "0.1.0"@,
                urls: UrlsView::List(seq!["https://example.com/test-chart-0.1.0.tgz"@]),
            }),
    {
        let urls = vec!["https://example.com/test-chart-0.1.0.tgz".to_owned()];
        assert(strings_view(urls@) =~= seq!["https://example.com/test-chart-0.1.0.tgz"@]);
        Parameters { app_version: None, digest: "abc123".to_owned(), version: "0.1.0".to_owned(), urls: Urls::List(urls) }
    }
}

/// The application version of a release: the release's own where it names one,
/// the chart's otherwise.
pub open spec fn merged_app_version(c: ConstantsView, p: ParametersView) -> Seq<char> {
    match p.app_version {
        Some(v) => v,
        None => c.app_version,
    }
}

/// The entry that a release adds to the index.
pub open spec fn merged_entry(c: ConstantsView, p: ParametersView, created: Seq<char>) -> EntryView {
    EntryView {
        api_version: c.api_version,
        app_version: merged_app_version(c, p),
        created: created,
        description: c.description,
        digest: p.digest,
        home: c.home,
        icon: c.icon,
        keywords: c.keywords,
        maintainers: c.maintainers,
        name: c.name,
        sources: c.sources,
        entry_type: c.entry_type,
        urls: url_list(p.urls),
        version: p.version,
    }
}

/// Builds the entry for a release, stamped with `created`.
pub fn build_entry(constants: &Constants, parameters: &Parameters, created: String) -> (r: ChartEntry)
    ensures
        r@ == merged_entry(constants@, parameters@, created@),
{
    let app_version = match &parameters.app_version {
        Some(v) => v.clone(),
        None => constants.app_version.clone(),
    };
    ChartEntry {
        api_version: constants.api_version.clone(),
        app_version,
        created,
        description: constants.description.clone(),
        digest: parameters.digest.clone(),
        home: constants.home.clone(),
        icon: constants.icon.clone(),
        keywords: copy_strings(&constants.keywords),
        maintainers: copy_maintainers(&constants.maintainers),
        name: constants.name.clone(),
        sources: copy_strings(&constants.sources),
        entry_type: constants.entry_type.clone(),
        urls: parameters.urls.to_list(),
        version: parameters.version.clone(),
    }
}

} // verus!
