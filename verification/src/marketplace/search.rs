//! Search and filtering of the plugin catalogue.
use vstd::prelude::*;
use crate::text::{
    chars_contain, chars_eq_ignore_ascii_case, chars_lt, chars_of, contains_seq,
    eq_ignore_ascii_case, lemma_seq_lt_total, lemma_seq_lt_transitive, push_char, seq_lt,
    str_eq, to_lowercase, unicode_lowercase,
};

verus! {

// ==================== Catalogue entries ====================

/// What the marketplace knows of one plugin of the registry.
#[derive(Debug)]
pub struct PluginInfo {
    pub name: String,
    pub description: String,
    pub author: String,
    pub license: String,
    pub latest_version: String,
    pub tags: Vec<String>,
    pub downloads: u64,
    pub downloads_recent: u64,
    /// The rating, encoded as an integer that orders as the ratings do.
    pub rating_key: u32,
    pub rating_count: u32,
    pub updated_at: u64,
}

/// A copy of a list of strings.
pub fn clone_strings(v: &Vec<String>) -> (r: Vec<String>)
    ensures
        r@ == v@,
{
    let mut r: Vec<String> = Vec::new();
    let mut i: usize = 0;
    while i < v.len()
        invariant
            i <= v@.len(),
            r@ == v@.take(i as int),
        decreases v.len() - i,
    {
        r.push(v[i].clone());
        proof {
            assert(r@ =~= v@.take(i + 1));
        }
        i = i + 1;
    }
    proof {
        assert(v@.take(v@.len() as int) =~= v@);
    }
    r
}

/// The plain values of a catalogue entry.
pub struct PluginView {
    pub name: Seq<char>,
    pub description: Seq<char>,
    pub author: Seq<char>,
    pub license: Seq<char>,
    pub latest_version: Seq<char>,
    pub tags: Seq<Seq<char>>,
    pub downloads: u64,
    pub downloads_recent: u64,
    pub rating_key: u32,
    pub rating_count: u32,
    pub updated_at: u64,
}

/// The characters of each string.
pub open spec fn texts(v: Seq<String>) -> Seq<Seq<char>> {
    v.map_values(|s: String| s@)
}

impl View for PluginInfo {
    type V = PluginView;

    open spec fn view(&self) -> PluginView {
        PluginView {
            name: self.name@,
            description: self.description@,
            author: self.author@,
            license: self.license@,
            latest_version: self.latest_version@,
            tags: texts(self.tags@),
            downloads: self.downloads,
            downloads_recent: self.downloads_recent,
            rating_key: self.rating_key,
            rating_count: self.rating_count,
            updated_at: self.updated_at,
        }
    }
}

/// The views of a list of entries.
pub open spec fn plugin_views(v: Seq<PluginInfo>) -> Seq<PluginView> {
    v.map_values(|p: PluginInfo| p@)
}

impl Clone for PluginInfo {
    fn clone(&self) -> (r: Self)
        ensures
            r@ == self@,
    {

        PluginInfo {
            name: self.name.clone(),
            description: self.description.clone(),
            author: self.author.clone(),
            license: self.license.clone(),
            latest_version: self.latest_version.clone(),
            tags: clone_strings(&self.tags),
            downloads: self.downloads,
            downloads_recent: self.downloads_recent,
            rating_key: self.rating_key,
            rating_count: self.rating_count,
            updated_at: self.updated_at,
        }
    }
}

/// Sort order of the plugin list.
#[derive(Debug, Clone, Copy, PartialEq, Eq, Structural)]
pub enum SortOrder {
    /// Most downloaded first
    Popular,
    /// Best rated first
    Rating,
    /// Most recently updated first
    Recent,
    /// By name, ascending
    Name,
}

impl Default for SortOrder {
    fn default() -> (s: Self)
        ensures
            s == SortOrder::Popular,
    {
        SortOrder::Popular
    }
}

// ==================== Search state ====================

/// Search and filter state.
#[derive(Debug, Clone)]
pub struct SearchState {
    /// Current search query
    pub query: String,
    /// Whether search input is focused
    pub focused: bool,
    /// Active sort order
    pub sort: SortOrder,
    /// Minimum rating filter, as a rating key
    pub min_rating_key: Option<u32>,
    /// Tag filter
    pub tag_filter: Option<String>,
}

/// The filter handed to the registry for the current search.
#[derive(Debug, Clone)]
pub struct PluginFilter {
    pub query: Option<String>,
    pub tag: Option<String>,
    pub author: Option<String>,
    pub min_rating_key: Option<u32>,
    pub sort: SortOrder,
    pub limit: Option<usize>,
}

impl Default for SearchState {
    fn default() -> (s: Self)
        ensures
            s.query@.len() == 0,
            !s.focused,
            s.sort == SortOrder::Popular,
            s.min_rating_key is None,
            s.tag_filter is None,
    {
        SearchState {
            query: String::new(),
            focused: false,
            sort: SortOrder::default(),
            min_rating_key: None,
            tag_filter: None,
        }
    }
}

impl SearchState {
    /// Clear the query, focus and tag filter.
    pub fn clear(&mut self)
        ensures
            final(self).query@.len() == 0,
            !final(self).focused,
            final(self).tag_filter is None,
            final(self).sort == old(self).sort,
            final(self).min_rating_key == old(self).min_rating_key,
    {
        self.query = String::new();
        self.focused = false;
        self.tag_filter = None;
    }

    /// Add a character to the query.
    pub fn push_char(&mut self, c: char)
        ensures
            final(self).query@ == old(self).query@.push(c),
            final(self).focused == old(self).focused,
            final(self).sort == old(self).sort,
            final(self).min_rating_key == old(self).min_rating_key,
            final(self).tag_filter == old(self).tag_filter,
    {
        push_char(&mut self.query, c);
    }

    /// Remove the last character of the query, if any.
    pub fn pop_char(&mut self)
        ensures
            old(self).query@.len() == 0 ==> final(self).query@.len() == 0,
            old(self).query@.len() > 0 ==> final(self).query@ == old(self).query@.drop_last(),
            final(self).focused == old(self).focused,
            final(self).sort == old(self).sort,
            final(self).min_rating_key == old(self).min_rating_key,
            final(self).tag_filter == old(self).tag_filter,
    {
        let chars = chars_of(self.query.as_str());
        if chars.len() > 0 {
            let mut q = String::new();
            let n = chars.len() - 1;
            crate::text::push_chars(&mut q, &chars.as_slice()[0..n]);
            proof {
                assert(chars@.subrange(0, n as int) =~= chars@.drop_last());
                assert(Seq::<char>::empty() + chars@.drop_last() =~= chars@.drop_last());
            }
            self.query = q;
        }
    }

    /// Set the query.
    pub fn set_query(&mut self, query: String)
        ensures
            final(self).query == query,
            final(self).focused == old(self).focused,
            final(self).sort == old(self).sort,
            final(self).min_rating_key == old(self).min_rating_key,
            final(self).tag_filter == old(self).tag_filter,
    {
        self.query = query;
    }

    /// The registry filter for the current search: the query when not
    /// empty, the tag filter, the minimum rating and the sort order.
    pub fn to_filter(&self) -> (f: PluginFilter)
        ensures
            self.query@.len() == 0 ==> f.query is None,
            self.query@.len() > 0 ==> f.query == Some(self.query),
            f.tag == self.tag_filter,
            f.author is None,
            f.min_rating_key == self.min_rating_key,
            f.sort == self.sort,
            f.limit is None,
    {
        let query = if self.query.as_str().is_empty() {
            None
        } else {
            Some(self.query.clone())
        };
        let tag = match &self.tag_filter {
            Some(t) => Some(t.clone()),
            None => None,
        };
        PluginFilter {
            query,
            tag,
            author: None,
            min_rating_key: self.min_rating_key,
            sort: self.sort,
            limit: None,
        }
    }
}

// ==================== Matching ====================

/// Some tag of `tags` equals one of `names`, ignoring ASCII case.
pub open spec fn has_tag_among(tags: Seq<Seq<char>>, names: Seq<Seq<char>>) -> bool {
    exists|i: int, j: int|
        0 <= i < tags.len() && 0 <= j < names.len() && eq_ignore_ascii_case(
            #[trigger] tags[i],
            #[trigger] names[j],
        )
}

/// The tags that put a plugin in each category; `None` for an unknown
/// category.
pub open spec fn category_tags(category: Seq<char>) -> Option<Seq<Seq<char>>> {
    if category == "Prompt"@ {
        Some(seq!["prompt"@])
    } else if category == "Editor"@ {
        Some(seq!["editor"@, "syntax"@, "highlighting"@])
    } else if category == "VCS"@ {
        Some(seq!["git"@, "vcs"@, "version-control"@])
    } else if category == "DevOps"@ {
        Some(seq!["devops"@, "kubernetes"@, "k8s"@, "docker"@])
    } else if category == "Network"@ {
        Some(seq!["network"@, "ssh"@, "http"@])
    } else {
        None
    }
}

/// A plugin belongs to a category: every plugin to "All", else by its tags.
pub open spec fn in_category(p: PluginView, category: Seq<char>) -> bool {
    if category == "All"@ {
        true
    } else {
        match category_tags(category) {
            Some(names) => has_tag_among(p.tags, names),
            None => false,
        }
    }
}

/// The lower-cased query occurs in the lower-cased name, description,
/// author or one of the tags.
pub open spec fn matches_query(p: PluginView, query: Seq<char>) -> bool {
    let q = unicode_lowercase(query);
    ||| contains_seq(unicode_lowercase(p.name), q)
    ||| contains_seq(unicode_lowercase(p.description), q)
    ||| contains_seq(unicode_lowercase(p.author), q)
    ||| exists|i: int|
        0 <= i < p.tags.len() && contains_seq(unicode_lowercase(#[trigger] p.tags[i]), q)
}

/// A plugin passes the search: it is in the category, matches a non-empty
/// query, carries the filtered tag and is rated at least the minimum.
pub open spec fn passes(search: SearchState, category: Seq<char>, p: PluginView) -> bool {
    &&& (category == "All"@ || in_category(p, category))
    &&& (search.query@.len() == 0 || matches_query(p, search.query@))
    &&& (search.tag_filter matches Some(t) ==> has_tag_among(p.tags, seq![t@]))
    &&& (search.min_rating_key matches Some(m) ==> p.rating_key >= m)
}

/// The filters only ever remove plugins: a plugin rated below the minimum
/// never passes, one without the filtered tag never passes, and with no
/// query, tag or minimum, every plugin passes in "All"; raising the minimum
/// keeps only plugins that passed before.
pub proof fn lemma_filters(search: SearchState, category: Seq<char>, p: PluginView, m2: u32)
    ensures
        search.min_rating_key matches Some(m) && p.rating_key < m ==> !passes(search, category, p),
        search.tag_filter matches Some(t) && (forall|i: int|
            0 <= i < p.tags.len() ==> !eq_ignore_ascii_case(#[trigger] p.tags[i], t@)) ==> !passes(
            search,
            category,
            p,
        ),
        search.query@.len() == 0 && search.tag_filter is None && search.min_rating_key is None ==> passes(
            search,
            "All"@,
            p,
        ),
        search.min_rating_key matches Some(m1) && m1 <= m2 && passes(
            SearchState { min_rating_key: Some(m2), ..search },
            category,
            p,
        ) ==> passes(search, category, p),
{
    match search.tag_filter {
        Some(t) => {
            let names = seq![t@];
            if has_tag_among(p.tags, names) {
                let (i, j) = choose|i: int, j: int|
                    0 <= i < p.tags.len() && 0 <= j < names.len() && eq_ignore_ascii_case(
                        #[trigger] p.tags[i],
                        #[trigger] names[j],
                    );
                assert(names[j] == t@);
            }
        },
        None => {},
    }
}

/// Category membership goes by tags, ignoring ASCII case: a plugin tagged
/// `git` is in VCS, `prompt` in Prompt, `syntax` in Editor, `docker` in
/// DevOps, `ssh` in Network; every plugin is in All and none in an unknown
/// category.
pub proof fn lemma_categories(p: PluginView, t: Seq<char>)
    requires
        p.tags.contains(t),
    ensures
        eq_ignore_ascii_case(t, "git"@) ==> in_category(p, "VCS"@),
        eq_ignore_ascii_case(t, "prompt"@) ==> in_category(p, "Prompt"@),
        eq_ignore_ascii_case(t, "syntax"@) ==> in_category(p, "Editor"@),
        eq_ignore_ascii_case(t, "docker"@) ==> in_category(p, "DevOps"@),
        eq_ignore_ascii_case(t, "ssh"@) ==> in_category(p, "Network"@),
        in_category(p, "All"@),
        !in_category(p, "Games"@),
{
    reveal_strlit("All");
    reveal_strlit("Prompt");
    reveal_strlit("Editor");
    reveal_strlit("VCS");
    reveal_strlit("DevOps");
    reveal_strlit("Network");
    reveal_strlit("Games");
    assert("All"@[0] == 'A' && "Prompt"@[0] == 'P' && "Editor"@[0] == 'E' && "VCS"@[0] == 'V');
    assert("DevOps"@[0] == 'D' && "Network"@[0] == 'N' && "Games"@[0] == 'G');
    let i = choose|i: int| 0 <= i < p.tags.len() && p.tags[i] == t;
    assert(p.tags[i] == t);
    let v = seq!["git"@, "vcs"@, "version-control"@];
    assert(v[0] == "git"@);
    let pr = seq!["prompt"@];
    assert(pr[0] == "prompt"@);
    let e = seq!["editor"@, "syntax"@, "highlighting"@];
    assert(e[1] == "syntax"@);
    let d = seq!["devops"@, "kubernetes"@, "k8s"@, "docker"@];
    assert(d[3] == "docker"@);
    let n = seq!["network"@, "ssh"@, "http"@];
    assert(n[1] == "ssh"@);
}

/// Whether some tag of `tags` is one of `names`, ignoring ASCII case.
fn any_tag_among(tags: &Vec<String>, names: &Vec<Vec<char>>) -> (r: bool)
    ensures
        r == has_tag_among(texts(tags@), names@.map_values(|n: Vec<char>| n@)),
{
    let ghost ns = names@.map_values(|n: Vec<char>| n@);
    let ghost ts = texts(tags@);
    let mut i: usize = 0;
    while i < tags.len()
        invariant
            i <= tags@.len(),
            ns == names@.map_values(|n: Vec<char>| n@),
            ts == texts(tags@),
            forall|a: int, b: int|
                0 <= a < i && 0 <= b < ns.len() ==> !eq_ignore_ascii_case(
                    #[trigger] ts[a],
                    #[trigger] ns[b],
                ),
        decreases tags.len() - i,
    {
        let t = chars_of(tags[i].as_str());
        let mut j: usize = 0;
        while j < names.len()
            invariant
                i < tags@.len(),
                j <= names@.len(),
                t@ == ts[i as int],
                ns == names@.map_values(|n: Vec<char>| n@),
                ts == texts(tags@),
                forall|a: int, b: int|
                    0 <= a < i && 0 <= b < ns.len() ==> !eq_ignore_ascii_case(
                        #[trigger] ts[a],
                        #[trigger] ns[b],
                    ),
                forall|b: int| 0 <= b < j ==> !eq_ignore_ascii_case(ts[i as int], #[trigger] ns[b]),
            decreases names.len() - j,
        {
            if chars_eq_ignore_ascii_case(t.as_slice(), names[j].as_slice()) {
                proof {
                    assert(eq_ignore_ascii_case(ts[i as int], ns[j as int]));
                }
                return true;
            }
            j = j + 1;
        }
        i = i + 1;
    }
    false
}

/// The characters of each of `words`.
fn char_lists(words: Vec<&str>) -> (r: Vec<Vec<char>>)
    ensures
        r@.len() == words@.len(),
        forall|k: int| 0 <= k < words@.len() ==> (#[trigger] r@[k])@ == words@[k]@,
{
    let mut r: Vec<Vec<char>> = Vec::new();
    let mut i: usize = 0;
    while i < words.len()
        invariant
            i <= words@.len(),
            r@.len() == i,
            forall|k: int| 0 <= k < i ==> (#[trigger] r@[k])@ == words@[k]@,
        decreases words.len() - i,
    {
        r.push(chars_of(words[i]));
        i = i + 1;
    }
    r
}

/// Whether a plugin belongs to `category`.
pub fn plugin_matches_category(plugin: &PluginInfo, category: &str) -> (r: bool)
    ensures
        r == in_category(plugin@, category@),
{
    proof {
        reveal_strlit("All");
        reveal_strlit("Prompt");
        reveal_strlit("Editor");
        reveal_strlit("VCS");
        reveal_strlit("DevOps");
        reveal_strlit("Network");
    }
    let ghost mut expected: Seq<Seq<char>> = Seq::empty();
    let words: Vec<&str> = if str_eq(category, "All") {
        return true;
    } else if str_eq(category, "Prompt") {
        proof { expected = seq!["prompt"@]; }
        vec!["prompt"]
    } else if str_eq(category, "Editor") {
        proof { expected = seq!["editor"@, "syntax"@, "highlighting"@]; }
        vec!["editor", "syntax", "highlighting"]
    } else if str_eq(category, "VCS") {
        proof { expected = seq!["git"@, "vcs"@, "version-control"@]; }
        vec!["git", "vcs", "version-control"]
    } else if str_eq(category, "DevOps") {
        proof { expected = seq!["devops"@, "kubernetes"@, "k8s"@, "docker"@]; }
        vec!["devops", "kubernetes", "k8s", "docker"]
    } else if str_eq(category, "Network") {
        proof { expected = seq!["network"@, "ssh"@, "http"@]; }
        vec!["network", "ssh", "http"]
    } else {
        return false;
    };
    assert(category_tags(category@) == Some(expected));
    let names = char_lists(words);
    proof {
        let ns = names@.map_values(|n: Vec<char>| n@);
        assert(ns =~= expected);
    }
    any_tag_among(&plugin.tags, &names)
}

/// Whether the lower-cased `hay` contains `q`.
fn lower_contains(hay: &str, q: &[char]) -> (r: bool)
    ensures
        r == contains_seq(unicode_lowercase(hay@), q@),
{
    let lower = to_lowercase(hay);
    let h = chars_of(lower.as_str());
    chars_contain(h.as_slice(), q)
}

/// Whether a plugin matches a search query, ignoring case.
pub fn plugin_matches_query(plugin: &PluginInfo, query: &str) -> (r: bool)
    ensures
        r == matches_query(plugin@, query@),
{
    let ql = to_lowercase(query);
    let q = chars_of(ql.as_str());
    if lower_contains(plugin.name.as_str(), q.as_slice()) {
        return true;
    }
    if lower_contains(plugin.description.as_str(), q.as_slice()) {
        return true;
    }
    if lower_contains(plugin.author.as_str(), q.as_slice()) {
        return true;
    }
    let mut i: usize = 0;
    while i < plugin.tags.len()
        invariant
            i <= plugin.tags@.len(),
            q@ == unicode_lowercase(query@),
            forall|k: int|
                0 <= k < i ==> !contains_seq(unicode_lowercase(#[trigger] texts(plugin.tags@)[k]), q@),
        decreases plugin.tags.len() - i,
    {
        if lower_contains(plugin.tags[i].as_str(), q.as_slice()) {
            proof {
                assert(plugin@.tags[i as int] == plugin.tags@[i as int]@);
            }
            return true;
        }
        i = i + 1;
    }
    false
}

/// Whether a plugin passes the search in `category`.
pub fn plugin_passes(plugin: &PluginInfo, search: &SearchState, category: &str) -> (r: bool)
    ensures
        r == passes(*search, category@, plugin@),
{
    if !str_eq(category, "All") && !plugin_matches_category(plugin, category) {
        return false;
    }
    if !search.query.as_str().is_empty() && !plugin_matches_query(plugin, search.query.as_str()) {
        return false;
    }
    if let Some(tag) = &search.tag_filter {
        let names = char_lists(vec![tag.as_str()]);
        proof {
            assert(names@.map_values(|n: Vec<char>| n@) =~= seq![tag@]);
        }
        if !any_tag_among(&plugin.tags, &names) {
            return false;
        }
    }
    if let Some(min) = search.min_rating_key {
        if plugin.rating_key < min {
            return false;
        }
    }
    true
}


// ==================== Sorting ====================

/// `a` sorts strictly before `b` by the key of `sort`: more downloads, a
/// better rating, a later update, or a name earlier in character order.
pub open spec fn key_before(sort: SortOrder, a: PluginView, b: PluginView) -> bool {
    match sort {
        SortOrder::Popular => a.downloads > b.downloads,
        SortOrder::Rating => a.rating_key > b.rating_key,
        SortOrder::Recent => a.updated_at > b.updated_at,
        SortOrder::Name => seq_lt(a.name, b.name),
    }
}

/// `a` and `b` have the same key for `sort`.
pub open spec fn key_tied(sort: SortOrder, a: PluginView, b: PluginView) -> bool {
    match sort {
        SortOrder::Popular => a.downloads == b.downloads,
        SortOrder::Rating => a.rating_key == b.rating_key,
        SortOrder::Recent => a.updated_at == b.updated_at,
        SortOrder::Name => a.name == b.name,
    }
}

/// Entry `i` of `v` comes before entry `j` once sorted: by key, and entries
/// with equal keys in the order given.
pub open spec fn sorts_before(sort: SortOrder, v: Seq<PluginView>, i: int, j: int) -> bool {
    key_before(sort, v[i], v[j]) || (key_tied(sort, v[i], v[j]) && i < j)
}

/// `order` lists every index of `v` once, in sorted order.
pub open spec fn is_sorted_order(sort: SortOrder, v: Seq<PluginView>, order: Seq<usize>) -> bool {
    &&& order.len() == v.len()
    &&& forall|k: int| 0 <= k < order.len() ==> order[k] < v.len()
    &&& forall|j: usize| j < v.len() ==> #[trigger] order.contains(j)
    &&& forall|a: int, b: int|
        0 <= a < b < order.len() ==> sorts_before(sort, v, #[trigger] order[a] as int, #[trigger] order[b] as int)
}

/// The entries of `v` taken in the order of `order`.
pub open spec fn permuted(v: Seq<PluginView>, order: Seq<usize>) -> Seq<PluginView> {
    order.map_values(|i: usize| v[i as int])
}

/// `after` is `before` sorted by `sort`, equal keys keeping their order.
pub open spec fn sorted_by(sort: SortOrder, before: Seq<PluginView>, after: Seq<PluginView>) -> bool {
    exists|order: Seq<usize>| is_sorted_order(sort, before, order) && after == permuted(before, order)
}

/// Sorting orders the entries by the chosen field: most downloaded, best
/// rated or most recently updated first, or names in ascending order.
pub proof fn lemma_sorted_by_field(sort: SortOrder, before: Seq<PluginView>, after: Seq<PluginView>, i: int, j: int)
    requires
        sorted_by(sort, before, after),
        0 <= i < j < after.len(),
    ensures
        after.len() == before.len(),
        sort == SortOrder::Popular ==> after[i].downloads >= after[j].downloads,
        sort == SortOrder::Rating ==> after[i].rating_key >= after[j].rating_key,
        sort == SortOrder::Recent ==> after[i].updated_at >= after[j].updated_at,
        sort == SortOrder::Name ==> !seq_lt(after[j].name, after[i].name),
{
    let order = choose|order: Seq<usize>| is_sorted_order(sort, before, order) && after == permuted(before, order);
    assert(after[i] == before[order[i] as int]);
    assert(after[j] == before[order[j] as int]);
    assert(sorts_before(sort, before, order[i] as int, order[j] as int));
    if sort == SortOrder::Name {
        let a = after[i].name;
        let b = after[j].name;
        lemma_seq_lt_total(a, b);
    }
}

/// The key order is a strict weak order: total up to ties, and transitive
/// through ties.
proof fn lemma_key_order(sort: SortOrder, x: PluginView, y: PluginView, z: PluginView)
    ensures
        !key_before(sort, x, y) ==> key_before(sort, y, x) || key_tied(sort, y, x),
        key_before(sort, x, y) && (key_before(sort, y, z) || key_tied(sort, y, z)) ==> key_before(
            sort,
            x,
            z,
        ),
{
    if sort == SortOrder::Name {
        lemma_seq_lt_total(x.name, y.name);
        if key_before(sort, x, y) && key_before(sort, y, z) {
            lemma_seq_lt_transitive(x.name, y.name, z.name);
        }
    }
}

/// Whether `a` sorts strictly before `b` by the key of `sort`.
fn key_precedes(sort: SortOrder, a: &PluginInfo, b: &PluginInfo) -> (r: bool)
    ensures
        r == key_before(sort, a@, b@),
{
    match sort {
        SortOrder::Popular => a.downloads > b.downloads,
        SortOrder::Rating => a.rating_key > b.rating_key,
        SortOrder::Recent => a.updated_at > b.updated_at,
        SortOrder::Name => {
            let an = chars_of(a.name.as_str());
            let bn = chars_of(b.name.as_str());
            chars_lt(an.as_slice(), bn.as_slice())
        },
    }
}

/// The indices of `v` in sorted order, by insertion: each entry goes after
/// every entry it does not sort strictly before.
fn sorted_order(v: &Vec<PluginInfo>, sort: SortOrder) -> (order: Vec<usize>)
    ensures
        is_sorted_order(sort, plugin_views(v@), order@),
{
    let ghost pv = plugin_views(v@);
    let mut order: Vec<usize> = Vec::new();
    let mut i: usize = 0;
    while i < v.len()
        invariant
            pv == plugin_views(v@),
            i <= v@.len(),
            order@.len() == i,
            forall|k: int| 0 <= k < order@.len() ==> order@[k] < i,
            forall|j: usize| j < i ==> #[trigger] order@.contains(j),
            forall|a: int, b: int|
                0 <= a < b < order@.len() ==> sorts_before(sort, pv, #[trigger] order@[a] as int, #[trigger] order@[b] as int),
        decreases v.len() - i,
    {
        let mut k: usize = 0;
        while k < order.len() && !key_precedes(sort, &v[i], &v[order[k]])
            invariant
                pv == plugin_views(v@),
                i < v@.len(),
                k <= order@.len(),
                forall|m: int| 0 <= m < order@.len() ==> order@[m] < i,
                forall|m: int| 0 <= m < k ==> !key_before(sort, pv[i as int], pv[#[trigger] order@[m] as int]),
            decreases order.len() - k,
        {
            k = k + 1;
        }
        let ghost old_order = order@;
        proof {
            assert(k == old_order.len() || key_before(sort, pv[i as int], pv[old_order[k as int] as int]));
        }
        order.insert(k, i);
        proof {
            let no = order@;
            assert(no == old_order.insert(k as int, i));
            assert forall|a: int, b: int| 0 <= a < b < no.len() implies sorts_before(sort, pv, #[trigger] no[a] as int, #[trigger] no[b] as int) by {
                if b < k {
                    assert(no[a] == old_order[a] && no[b] == old_order[b]);
                } else if b == k {
                    let oa = old_order[a] as int;
                    assert(no[a] == old_order[a]);
                    lemma_key_order(sort, pv[i as int], pv[oa], pv[oa]);
                    assert(!key_before(sort, pv[i as int], pv[old_order[a] as int]));
                } else if a == k {
                    let ob = old_order[b - 1] as int;
                    let ok = old_order[k as int] as int;
                    assert(no[b] == old_order[b - 1]);
                    if b - 1 > k {
                        assert(sorts_before(sort, pv, old_order[k as int] as int, old_order[b - 1] as int));
                    }
                    lemma_key_order(sort, pv[i as int], pv[ok], pv[ob]);
                } else if a < k {
                    assert(no[a] == old_order[a] && no[b] == old_order[b - 1]);
                    assert(sorts_before(sort, pv, old_order[a] as int, old_order[b - 1] as int));
                } else {
                    assert(no[a] == old_order[a - 1] && no[b] == old_order[b - 1]);
                    assert(sorts_before(sort, pv, old_order[a - 1] as int, old_order[b - 1] as int));
                }
            }
            assert forall|j: usize| j < i + 1 implies #[trigger] no.contains(j) by {
                if j == i {
                    assert(no[k as int] == i);
                } else {
                    assert(old_order.contains(j));
                    let w = choose|w: int| 0 <= w < old_order.len() && old_order[w] == j;
                    if w < k {
                        assert(no[w] == j);
                    } else {
                        assert(no[w + 1] == j);
                    }
                }
            }
        }
        i = i + 1;
    }
    order
}

/// The entries of `v` in the order given by `order`.
fn take_in_order(v: &Vec<PluginInfo>, order: &Vec<usize>) -> (r: Vec<PluginInfo>)
    requires
        forall|k: int| 0 <= k < order@.len() ==> order@[k] < v@.len(),
    ensures
        plugin_views(r@) == permuted(plugin_views(v@), order@),
{
    let mut r: Vec<PluginInfo> = Vec::new();
    let mut k: usize = 0;
    while k < order.len()
        invariant
            k <= order@.len(),
            forall|m: int| 0 <= m < order@.len() ==> order@[m] < v@.len(),
            plugin_views(r@) == permuted(plugin_views(v@), order@.take(k as int)),
        decreases order.len() - k,
    {
        let c = v[order[k]].clone();
        let ghost prev = r@;
        r.push(c);
        proof {
            assert(r@ == prev.push(c));
            assert(c@ == plugin_views(v@)[order@[k as int] as int]);
            assert(plugin_views(r@) =~= plugin_views(prev).push(c@));
            assert(order@.take(k + 1) =~= order@.take(k as int).push(order@[k as int]));
            assert(permuted(plugin_views(v@), order@.take(k + 1)) =~= permuted(plugin_views(v@), order@.take(k as int)).push(c@));
        }
        k = k + 1;
    }
    proof {
        assert(order@.take(order@.len() as int) =~= order@);
    }
    r
}

/// Sort plugins by `sort`; entries with equal keys keep their order.
pub fn sort_plugins(plugins: &mut Vec<PluginInfo>, sort: SortOrder)
    ensures
        sorted_by(sort, plugin_views(old(plugins)@), plugin_views(final(plugins)@)),
        sort == SortOrder::Rating ==> forall|i: int, j: int|
            0 <= i < j < final(plugins)@.len() ==> #[trigger] final(plugins)@[i].rating_key >= #[trigger] final(plugins)@[j].rating_key,
        sort == SortOrder::Popular ==> forall|i: int, j: int|
            0 <= i < j < final(plugins)@.len() ==> #[trigger] final(plugins)@[i].downloads >= #[trigger] final(plugins)@[j].downloads,
        sort == SortOrder::Recent ==> forall|i: int, j: int|
            0 <= i < j < final(plugins)@.len() ==> #[trigger] final(plugins)@[i].updated_at >= #[trigger] final(plugins)@[j].updated_at,
{
    let order = sorted_order(plugins, sort);
    let sorted = take_in_order(plugins, &order);
    proof {
        assert(is_sorted_order(sort, plugin_views(plugins@), order@));
    }
    *plugins = sorted;
    proof {
        let after = plugin_views(plugins@);
        if sort == SortOrder::Rating {
            assert forall|i: int, j: int| 0 <= i < j < plugins@.len() implies #[trigger] plugins@[i].rating_key
                >= #[trigger] plugins@[j].rating_key by {
                lemma_sorted_by_field(sort, plugin_views(old(plugins)@), after, i, j);
                assert(after[i] == plugins@[i]@);
                assert(after[j] == plugins@[j]@);
            }
        }
        if sort == SortOrder::Popular {
            assert forall|i: int, j: int| 0 <= i < j < plugins@.len() implies #[trigger] plugins@[i].downloads
                >= #[trigger] plugins@[j].downloads by {
                lemma_sorted_by_field(sort, plugin_views(old(plugins)@), after, i, j);
                assert(after[i] == plugins@[i]@);
                assert(after[j] == plugins@[j]@);
            }
        }
        if sort == SortOrder::Recent {
            assert forall|i: int, j: int| 0 <= i < j < plugins@.len() implies #[trigger] plugins@[i].updated_at
                >= #[trigger] plugins@[j].updated_at by {
                lemma_sorted_by_field(sort, plugin_views(old(plugins)@), after, i, j);
                assert(after[i] == plugins@[i]@);
                assert(after[j] == plugins@[j]@);
            }
        }
    }
}

/// The search as a predicate on entries.
pub open spec fn passing(search: SearchState, category: Seq<char>) -> spec_fn(PluginView) -> bool {
    |p: PluginView| passes(search, category, p)
}

/// The plugins that pass the search in `category`, sorted by the search's
/// sort order (equal keys keeping their order).
pub fn apply_filters(plugins: &[PluginInfo], search: &SearchState, category: &str) -> (r: Vec<
    PluginInfo,
>)
    ensures
        sorted_by(
            search.sort,
            plugin_views(plugins@).filter(passing(*search, category@)),
            plugin_views(r@),
        ),
{
    let ghost f = passing(*search, category@);
    let mut kept: Vec<PluginInfo> = Vec::new();
    let mut i: usize = 0;
    while i < plugins.len()
        invariant
            i <= plugins@.len(),
            f == passing(*search, category@),
            plugin_views(kept@) == plugin_views(plugins@.take(i as int)).filter(f),
        decreases plugins.len() - i,
    {
        proof {
            reveal(Seq::filter);
            assert(plugin_views(plugins@.take(i + 1)).drop_last() =~= plugin_views(plugins@.take(i as int)));
            assert(plugin_views(plugins@.take(i + 1)).last() == plugins@[i as int]@);
        }
        if plugin_passes(&plugins[i], search, category) {
            kept.push(plugins[i].clone());
            proof {
                assert(plugin_views(kept@) =~= plugin_views(plugins@.take(i as int)).filter(f).push(plugins@[i as int]@));
            }
        }
        i = i + 1;
    }
    proof {
        assert(plugins@.take(plugins@.len() as int) =~= plugins@);
    }
    sort_plugins(&mut kept, search.sort);
    kept
}

} // verus!
