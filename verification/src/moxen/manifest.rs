//! The manifest model: a bundle's declared metadata, its dependency list,
//! and the normalized, content-addressed projection sent to the registry.

use vstd::prelude::*;

verus! {

/// The manifest of one bundle, as declared in its manifest file.
#[derive(Debug, Clone)]
pub struct PackageManifest {
    pub mox: Metadata,
}

/// A bundle's declared metadata.
#[derive(Debug, Clone)]
pub struct Metadata {
    pub name: String,
    pub version: Option<String>,
    pub wow_version: String,
    pub description: String,
    pub categories: Option<Vec<MoxCategory>>,
    pub authors: Vec<String>,
    pub homepage: Option<String>,
    pub repository: Option<String>,
    pub dependencies: Option<Vec<String>>,
    pub ignore: Option<Vec<String>>,
}

/// The content-addressed projection of a manifest: what the registry sees
/// on publish, together with the archive's content digest.
#[derive(Debug, Clone)]
pub struct NormalizedManifest {
    pub name: String,
    pub version: Option<String>,
    pub wow_version: String,
    pub categories: Vec<MoxCategory>,
    pub cksum: String,
}

/// The registry's category index.
#[derive(Debug, Copy, Clone, PartialEq, Eq, Structural)]
pub enum MoxCategory {
    Achievements,
    ActionBars,
    Artwork,
    AuctionEconomy,
    AudioVideo,
    BagsInventory,
    BossEncounters,
    BuffsDebuffs,
    ChatCommunication,
    Class,
    Combat,
    Companions,
    DataExport,
    DevelopmentTools,
    Garrison,
    Guild,
    Library,
    Mail,
    MapMinimap,
    Minigames,
    Miscellaneous,
    Plugins,
    Professions,
    Pvp,
    QuestsLevelling,
    Roleplay,
    Tooltip,
    TwitchIntegration,
    UnitFrames,
}

impl core::default::Default for MoxCategory {
    fn default() -> (r: Self)
        ensures
            r == MoxCategory::Miscellaneous,
    {
        MoxCategory::Miscellaneous
    }
}

// ---------------------------------------------------------------------------
// Name normalisation
// ---------------------------------------------------------------------------

/// Lower-casing of a character sequence, as `str::to_lowercase` performs it.
pub uninterp spec fn lower_of(s: Seq<char>) -> Seq<char>;

/// Relies on str::to_lowercase: the result depends on the characters alone,
/// and an empty string stays empty.
#[verifier::external_body]
fn lowercase(s: &str) -> (r: String)
    ensures
        r@ == lower_of(s@),
        s@.len() == 0 ==> r@.len() == 0,
{
    s.to_lowercase()
}

/// Every space replaced by a hyphen; all other characters kept.
pub open spec fn spaces_to_hyphens(s: Seq<char>) -> Seq<char> {
    s.map_values(|c: char| if c == ' ' { '-' } else { c })
}

/// Builds the space-to-hyphen projection of a string.
fn replace_spaces(s: &str) -> (r: String)
    ensures
        r@ == spaces_to_hyphens(s@),
{
    let len = s.unicode_len();
    let mut out = String::new();
    let mut i: usize = 0;
    while i < len
        invariant
            len == s@.len(),
            i <= len,
            out@ == spaces_to_hyphens(s@.take(i as int)),
        decreases len - i,
    {
        let c = s.get_char(i);
        if c == ' ' {
            out.append("-");
            proof {
                reveal_strlit("-");
                assert(("-")@ =~= seq!['-']);
            }
        } else {
            let piece = s.substring_char(i, i + 1);
            proof {
                assert(piece@ =~= seq![s@[i as int]]);
            }
            out.append(piece);
        }
        proof {
            assert(out@ =~= spaces_to_hyphens(s@.take(i + 1)));
        }
        i = i + 1;
    }
    proof {
        assert(s@.take(len as int) =~= s@);
    }
    out
}

// ---------------------------------------------------------------------------
// The normalized view and its construction
// ---------------------------------------------------------------------------

/// The mathematical shape of a normalized manifest.
#[verifier::ext_equal]
pub ghost struct NormalizedView {
    pub name: Seq<char>,
    pub version: Option<Seq<char>>,
    pub wow_version: Seq<char>,
    pub categories: Seq<MoxCategory>,
    pub cksum: Seq<char>,
}

impl NormalizedManifest {
    /// The mathematical content of this normalized manifest.
    pub open spec fn norm_view(&self) -> NormalizedView {
        NormalizedView {
            name: self.name@,
            version: self.version.deep_view(),
            wow_version: self.wow_version@,
            categories: self.categories@,
            cksum: self.cksum@,
        }
    }
}

/// Idempotent, order-preserving insertion into a dependency list.
pub open spec fn insert_dep(deps: Seq<Seq<char>>, dep: Seq<char>) -> Seq<Seq<char>> {
    if deps.contains(dep) {
        deps
    } else {
        deps.push(dep)
    }
}

impl PackageManifest {
    /// The manifest's invariant: the bundle has a name, and the dependency
    /// list holds no duplicates.
    pub open spec fn wf(&self) -> bool {
        self.mox.name@.len() > 0 && deps_unique(self.deps_seq())
    }

    /// The declared dependency names, empty when the list is absent.
    pub open spec fn deps_seq(&self) -> Seq<Seq<char>> {
        match self.mox.dependencies {
            Some(d) => d.deep_view(),
            None => Seq::<Seq<char>>::empty(),
        }
    }

    /// The declared category set, defaulting to a single miscellaneous
    /// category when absent or empty: the registry's index never sees an
    /// empty category set.
    pub open spec fn categories_spec(&self) -> Seq<MoxCategory> {
        match self.mox.categories {
            Some(c) => if c@.len() > 0 {
                c@
            } else {
                seq![MoxCategory::Miscellaneous]
            },
            None => seq![MoxCategory::Miscellaneous],
        }
    }

    /// The normalized bundle name: lower-cased, spaces joined by hyphens,
    /// optionally suffixed by the lower-cased version (or the target
    /// platform version when no version is set).
    pub open spec fn normal_name_spec(&self, with_version: bool) -> Seq<char> {
        let base = spaces_to_hyphens(lower_of(self.mox.name@));
        if !with_version {
            base
        } else {
            base + "-"@ + (match self.mox.version {
                Some(v) => lower_of(v@),
                None => self.mox.wow_version@,
            })
        }
    }

    /// Projects the bundle name into its normalized form.
    pub fn normalise_name(&self, with_version: bool) -> (r: String)
        ensures
            r@ == self.normal_name_spec(with_version),
    {
        let lower = lowercase(self.mox.name.as_str());
        let mut name = replace_spaces(lower.as_str());
        if !with_version {
            return name;
        }
        name.append("-");
        match &self.mox.version {
            Some(v) => {
                let lv = lowercase(v.as_str());
                name.append(lv.as_str());
            },
            None => {
                name.append(self.mox.wow_version.as_str());
            },
        }
        name
    }

    /// The normalized projection of this manifest under a given digest:
    /// a deterministic, pure function of the manifest and the digest.
    pub open spec fn normalise_spec(&self, cksum: Seq<char>) -> NormalizedView {
        NormalizedView {
            name: spaces_to_hyphens(lower_of(self.mox.name@)),
            version: self.mox.version.deep_view(),
            wow_version: self.mox.wow_version@,
            categories: self.categories_spec(),
            cksum: cksum,
        }
    }

    /// Normalizes the manifest around a content digest.
    pub fn normalise(self, cksum: String) -> (r: NormalizedManifest)
        ensures
            r.norm_view() == self.normalise_spec(cksum@),
    {
        let name = self.normalise_name(false);
        let categories = match self.mox.categories {
            Some(cat) => {
                if cat.len() > 0 {
                    cat
                } else {
                    let c = vec![MoxCategory::Miscellaneous];
                    proof {
                        assert(c@ =~= seq![MoxCategory::Miscellaneous]);
                    }
                    c
                }
            },
            None => {
                let c = vec![MoxCategory::Miscellaneous];
                proof {
                    assert(c@ =~= seq![MoxCategory::Miscellaneous]);
                }
                c
            },
        };
        let r = NormalizedManifest {
            name,
            version: self.mox.version,
            wow_version: self.mox.wow_version,
            categories,
            cksum,
        };
        proof {
            assert(r.norm_view() =~= self.normalise_spec(cksum@));
        }
        r
    }

    /// A fresh, bootstrapped manifest for a new bundle.
    pub fn fresh(name: &str) -> (r: Self)
        ensures
            r.mox.name@ == name@,
            r.mox.version matches Some(v) && v@ == "0.1.0"@,
            r.mox.description@ == "Bootstrapped by Moxen"@,
            r.mox.wow_version@ == "<Insert current WoW version here (11.0.1)!>"@,
            r.mox.categories matches Some(c) && c@ =~= seq![MoxCategory::Miscellaneous],
            r.mox.authors@.len() == 0,
            r.mox.homepage is None,
            r.mox.repository is None,
            r.mox.dependencies is None,
            r.mox.ignore is None,
            name@.len() > 0 ==> r.wf(),
    {
        PackageManifest {
            mox: Metadata {
                name: String::from_str(name),
                version: Some(String::from_str("0.1.0")),
                description: String::from_str("Bootstrapped by Moxen"),
                wow_version: String::from_str("<Insert current WoW version here (11.0.1)!>"),
                categories: Some(vec![MoxCategory::Miscellaneous]),
                authors: Vec::new(),
                homepage: None,
                repository: None,
                dependencies: None,
                ignore: None,
            },
        }
    }

    /// Inserts a dependency name unless it is already present; every other
    /// field of the manifest is untouched.
    pub fn add_dependency(&mut self, dep: String)
        ensures
            final(self).deps_seq() == insert_dep(old(self).deps_seq(), dep@),
            old(self).wf() ==> final(self).wf(),
            final(self).mox.name == old(self).mox.name,
            final(self).mox.version == old(self).mox.version,
            final(self).mox.wow_version == old(self).mox.wow_version,
            final(self).mox.description == old(self).mox.description,
            final(self).mox.categories == old(self).mox.categories,
            final(self).mox.authors == old(self).mox.authors,
            final(self).mox.homepage == old(self).mox.homepage,
            final(self).mox.repository == old(self).mox.repository,
            final(self).mox.ignore == old(self).mox.ignore,
    {
        proof {
            if deps_unique(old(self).deps_seq()) {
                lemma_insert_dep_preserves_unique(old(self).deps_seq(), dep@);
            }
        }
        let deps = self.mox.dependencies.take();
        match deps {
            Some(mut d) => {
                let present = vec_contains_string(&d, &dep);
                if !present {
                    d.push(dep);
                }
                proof {
                    assert(d.deep_view() =~= insert_dep(old(self).deps_seq(), dep@));
                }
                self.mox.dependencies = Some(d);
            },
            None => {
                let d = vec![dep];
                proof {
                    assert(!old(self).deps_seq().contains(dep@));
                    assert(d.deep_view() =~= insert_dep(old(self).deps_seq(), dep@));
                }
                self.mox.dependencies = Some(d);
            },
        }
    }
}

/// Whether a vector of strings holds the given string's characters.
pub fn vec_contains_string(v: &Vec<String>, s: &String) -> (r: bool)
    ensures
        r == v.deep_view().contains(s@),
{
    let mut i: usize = 0;
    while i < v.len()
        invariant
            i <= v@.len(),
            forall|j: int| 0 <= j < i ==> v.deep_view()[j] != s@,
        decreases v@.len() - i,
    {
        if crate::common::str_eq_str(v[i].as_str(), s.as_str()) {
            proof {
                assert(v.deep_view()[i as int] == s@);
            }
            return true;
        }
        i = i + 1;
    }
    false
}

// ---------------------------------------------------------------------------
// Laws of normalisation and dependency insertion
// ---------------------------------------------------------------------------

/// Normalisation is a pure function of the manifest and the digest, and two
/// normalisations of the same manifest differ only in their digest field.
pub proof fn lemma_normalise_digest_only(m: &PackageManifest, d1: Seq<char>, d2: Seq<char>)
    ensures
        m.normalise_spec(d1) == m.normalise_spec(d1),
        m.normalise_spec(d1).name == m.normalise_spec(d2).name,
        m.normalise_spec(d1).version == m.normalise_spec(d2).version,
        m.normalise_spec(d1).wow_version == m.normalise_spec(d2).wow_version,
        m.normalise_spec(d1).categories == m.normalise_spec(d2).categories,
        m.normalise_spec(d1).cksum == d1,
        m.normalise_spec(d2).cksum == d2,
        d1 == d2 ==> m.normalise_spec(d1) == m.normalise_spec(d2),
{
}

/// A duplicate-free dependency list.
pub open spec fn deps_unique(deps: Seq<Seq<char>>) -> bool {
    forall|i: int, j: int| 0 <= i < j < deps.len() ==> deps[i] != deps[j]
}

/// The insertion rule keeps the dependency list duplicate-free.
pub proof fn lemma_insert_dep_preserves_unique(deps: Seq<Seq<char>>, dep: Seq<char>)
    requires
        deps_unique(deps),
    ensures
        deps_unique(insert_dep(deps, dep)),
{
    if !deps.contains(dep) {
        let pushed = deps.push(dep);
        assert forall|i: int, j: int| 0 <= i < j < pushed.len() implies pushed[i] != pushed[j] by {
            if j == pushed.len() - 1 {
                assert(!deps.contains(dep));
                assert(pushed[i] == deps[i]);
            }
        }
    }
}

/// Inserting the same name twice leaves the dependency list as one insertion
/// does; existing entries keep their positions.
pub proof fn lemma_add_dependency_idempotent(deps: Seq<Seq<char>>, dep: Seq<char>)
    ensures
        insert_dep(insert_dep(deps, dep), dep) == insert_dep(deps, dep),
        forall|i: int| 0 <= i < deps.len() ==> insert_dep(deps, dep)[i] == deps[i],
        deps.contains(dep) ==> insert_dep(deps, dep) == deps,
        !deps.contains(dep) ==> insert_dep(deps, dep) == deps.push(dep),
{
    if !deps.contains(dep) {
        assert(deps.push(dep)[deps.len() as int] == dep);
        assert(deps.push(dep).contains(dep));
    }
}


// ---------------------------------------------------------------------------
// Display projection
// ---------------------------------------------------------------------------

impl MoxCategory {
    /// The human-readable label of the category.
    pub open spec fn label_spec(&self) -> Seq<char> {
        match self {
            MoxCategory::Achievements => "Achievements"@,
            MoxCategory::ActionBars => "Action Bars"@,
            MoxCategory::Artwork => "Artwork"@,
            MoxCategory::AuctionEconomy => "Auction & Economy"@,
            MoxCategory::AudioVideo => "Audio & Visual"@,
            MoxCategory::BagsInventory => "Bags & Inventory"@,
            MoxCategory::BossEncounters => "Boss Encounters"@,
            MoxCategory::BuffsDebuffs => "Buffs & Debuffs"@,
            MoxCategory::ChatCommunication => "Chat & Communication"@,
            MoxCategory::Class => "Class"@,
            MoxCategory::Combat => "Combat"@,
            MoxCategory::Companions => "Companions"@,
            MoxCategory::DataExport => "Data Export"@,
            MoxCategory::DevelopmentTools => "Development Tools"@,
            MoxCategory::Garrison => "Garrison"@,
            MoxCategory::Guild => "Guild"@,
            MoxCategory::Library => "Library"@,
            MoxCategory::Mail => "Mail"@,
            MoxCategory::MapMinimap => "Map & Minimap"@,
            MoxCategory::Minigames => "Minigames"@,
            MoxCategory::Miscellaneous => "Miscellaneous"@,
            MoxCategory::Plugins => "Plugins"@,
            MoxCategory::Professions => "Professions"@,
            MoxCategory::Pvp => "PvP"@,
            MoxCategory::QuestsLevelling => "Quests & Levelling"@,
            MoxCategory::Roleplay => "Roleplay"@,
            MoxCategory::Tooltip => "Tooltip"@,
            MoxCategory::TwitchIntegration => "Twitch Integration"@,
            MoxCategory::UnitFrames => "Unit Frames"@,
        }
    }

    pub fn label(&self) -> (r: String)
        ensures
            r@ == self.label_spec(),
    {
        match self {
            MoxCategory::Achievements => String::from_str("Achievements"),
            MoxCategory::ActionBars => String::from_str("Action Bars"),
            MoxCategory::Artwork => String::from_str("Artwork"),
            MoxCategory::AuctionEconomy => String::from_str("Auction & Economy"),
            MoxCategory::AudioVideo => String::from_str("Audio & Visual"),
            MoxCategory::BagsInventory => String::from_str("Bags & Inventory"),
            MoxCategory::BossEncounters => String::from_str("Boss Encounters"),
            MoxCategory::BuffsDebuffs => String::from_str("Buffs & Debuffs"),
            MoxCategory::ChatCommunication => String::from_str("Chat & Communication"),
            MoxCategory::Class => String::from_str("Class"),
            MoxCategory::Combat => String::from_str("Combat"),
            MoxCategory::Companions => String::from_str("Companions"),
            MoxCategory::DataExport => String::from_str("Data Export"),
            MoxCategory::DevelopmentTools => String::from_str("Development Tools"),
            MoxCategory::Garrison => String::from_str("Garrison"),
            MoxCategory::Guild => String::from_str("Guild"),
            MoxCategory::Library => String::from_str("Library"),
            MoxCategory::Mail => String::from_str("Mail"),
            MoxCategory::MapMinimap => String::from_str("Map & Minimap"),
            MoxCategory::Minigames => String::from_str("Minigames"),
            MoxCategory::Miscellaneous => String::from_str("Miscellaneous"),
            MoxCategory::Plugins => String::from_str("Plugins"),
            MoxCategory::Professions => String::from_str("Professions"),
            MoxCategory::Pvp => String::from_str("PvP"),
            MoxCategory::QuestsLevelling => String::from_str("Quests & Levelling"),
            MoxCategory::Roleplay => String::from_str("Roleplay"),
            MoxCategory::Tooltip => String::from_str("Tooltip"),
            MoxCategory::TwitchIntegration => String::from_str("Twitch Integration"),
            MoxCategory::UnitFrames => String::from_str("Unit Frames"),
        }
    }
}

/// One `- entry` line per author, in order.
pub open spec fn author_lines(a: Seq<Seq<char>>) -> Seq<char>
    decreases a.len(),
{
    if a.len() == 0 {
        Seq::<char>::empty()
    } else {
        "- "@ + a[0] + "\n"@ + author_lines(a.drop_first())
    }
}

proof fn lemma_author_lines_push(a: Seq<Seq<char>>, x: Seq<char>)
    ensures
        author_lines(a.push(x)) =~= author_lines(a) + "- "@ + x + "\n"@,
    decreases a.len(),
{
    if a.len() == 0 {
        assert(a.push(x).drop_first() =~= a);
    } else {
        assert(a.push(x).drop_first() =~= a.drop_first().push(x));
        lemma_author_lines_push(a.drop_first(), x);
    }
}

/// One `- label` line per category, in order.
pub open spec fn category_lines(c: Seq<MoxCategory>) -> Seq<char>
    decreases c.len(),
{
    if c.len() == 0 {
        Seq::<char>::empty()
    } else {
        "- "@ + c[0].label_spec() + "\n"@ + category_lines(c.drop_first())
    }
}

proof fn lemma_category_lines_push(c: Seq<MoxCategory>, x: MoxCategory)
    ensures
        category_lines(c.push(x)) =~= category_lines(c) + "- "@ + x.label_spec() + "\n"@,
    decreases c.len(),
{
    if c.len() == 0 {
        assert(c.push(x).drop_first() =~= c);
    } else {
        assert(c.push(x).drop_first() =~= c.drop_first().push(x));
        lemma_category_lines_push(c.drop_first(), x);
    }
}

/// The `Addon Version` line, present only when a version is set.
pub open spec fn version_block(v: Option<Seq<char>>) -> Seq<char> {
    match v {
        Some(v) => "Addon Version: "@ + v + "\n"@,
        None => Seq::<char>::empty(),
    }
}

/// The authors section, absent when no author is listed.
pub open spec fn authors_block(a: Seq<Seq<char>>) -> Seq<char> {
    if a.len() > 0 {
        "Authors:\n"@ + author_lines(a)
    } else {
        Seq::<char>::empty()
    }
}

/// The categories section, absent when no category is listed.
pub open spec fn categories_block(c: Option<Vec<MoxCategory>>) -> Seq<char> {
    match c {
        Some(cs) => if cs@.len() > 0 {
            "Categories:\n"@ + category_lines(cs@)
        } else {
            Seq::<char>::empty()
        },
        None => Seq::<char>::empty(),
    }
}

/// A single labelled line, present only when the field is set.
pub open spec fn optional_line(label: Seq<char>, v: Option<Seq<char>>) -> Seq<char> {
    match v {
        Some(v) => label + v + "\n"@,
        None => Seq::<char>::empty(),
    }
}

/// Appends the version line, when one is set.
pub(crate) fn render_version(v: &Option<String>, out: &mut String)
    ensures
        final(out)@ == old(out)@ + version_block(v.deep_view()),
{
    match v {
        Some(v) => {
            out.append("Addon Version: ");
            out.append(v.as_str());
            out.append("\n");
        },
        None => {},
    }
}

/// Appends one line per author.
pub(crate) fn render_author_items(authors: &Vec<String>, out: &mut String)
    ensures
        final(out)@ == old(out)@ + author_lines(authors.deep_view()),
{
    let ghost base = out@;
    let mut i: usize = 0;
    while i < authors.len()
        invariant
            i <= authors@.len(),
            out@ == base + author_lines(authors.deep_view().take(i as int)),
        decreases authors@.len() - i,
    {
        out.append("- ");
        out.append(authors[i].as_str());
        out.append("\n");
        proof {
            let views = authors.deep_view();
            assert(views.take(i + 1) =~= views.take(i as int).push(views[i as int]));
            lemma_author_lines_push(views.take(i as int), views[i as int]);
        }
        i = i + 1;
    }
    proof {
        assert(authors.deep_view().take(authors@.len() as int) =~= authors.deep_view());
    }
}

/// Appends the authors section, when any author is listed.
fn render_authors(authors: &Vec<String>, out: &mut String)
    ensures
        final(out)@ == old(out)@ + authors_block(authors.deep_view()),
{
    if authors.len() > 0 {
        out.append("Authors:\n");
        render_author_items(authors, out);
    }
}

/// Appends the categories section, when any category is listed.
fn render_categories(categories: &Option<Vec<MoxCategory>>, out: &mut String)
    ensures
        final(out)@ == old(out)@ + categories_block(*categories),
{
    match categories {
        Some(c) => {
            if c.len() > 0 {
                out.append("Categories:\n");
                let ghost base = out@;
                let mut i: usize = 0;
                while i < c.len()
                    invariant
                        i <= c@.len(),
                        out@ == base + category_lines(c@.take(i as int)),
                    decreases c@.len() - i,
                {
                    out.append("- ");
                    let lbl = c[i].label();
                    out.append(lbl.as_str());
                    out.append("\n");
                    proof {
                        assert(c@.take(i + 1) =~= c@.take(i as int).push(c@[i as int]));
                        lemma_category_lines_push(c@.take(i as int), c@[i as int]);
                    }
                    i = i + 1;
                }
                proof {
                    assert(c@.take(c@.len() as int) =~= c@);
                }
            }
        },
        None => {},
    }
}

/// Appends a labelled line, when the field is set.
pub(crate) fn render_optional_line(label: &str, v: &Option<String>, out: &mut String)
    ensures
        final(out)@ == old(out)@ + optional_line(label@, v.deep_view()),
{
    match v {
        Some(v) => {
            out.append(label);
            out.append(v.as_str());
            out.append("\n");
        },
        None => {},
    }
}

impl PackageManifest {
    /// The fixed, human-readable rendering of the manifest: every populated
    /// optional field in a fixed order, absent fields omitted entirely.
    pub open spec fn display_spec(&self) -> Seq<char> {
        "--- Mox Manifest ---\n"@ + "Name: "@ + self.mox.name@ + "\n"@ + version_block(
            self.mox.version.deep_view(),
        ) + "World of Warcraft Version: "@ + self.mox.wow_version@ + "\n"@
            + "Addon Description: \""@ + self.mox.description@ + "\"\n"@ + authors_block(
            self.mox.authors.deep_view(),
        ) + categories_block(self.mox.categories) + optional_line(
            "Home: "@,
            self.mox.homepage.deep_view(),
        ) + optional_line("Source Code: "@, self.mox.repository.deep_view()) + "------\n"@
    }

    /// Renders the manifest for display.
    pub fn describe(&self) -> (r: String)
        ensures
            r@ == self.display_spec(),
    {
        let mut out = String::from_str("--- Mox Manifest ---\n");
        out.append("Name: ");
        out.append(self.mox.name.as_str());
        out.append("\n");
        render_version(&self.mox.version, &mut out);
        out.append("World of Warcraft Version: ");
        out.append(self.mox.wow_version.as_str());
        out.append("\n");
        out.append("Addon Description: \"");
        out.append(self.mox.description.as_str());
        out.append("\"\n");
        render_authors(&self.mox.authors, &mut out);
        render_categories(&self.mox.categories, &mut out);
        render_optional_line("Home: ", &self.mox.homepage, &mut out);
        render_optional_line("Source Code: ", &self.mox.repository, &mut out);
        out.append("------\n");
        out
    }
}


} // verus!
