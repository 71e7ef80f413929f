//! Focusable regions: navigation targets detected in terminal content (URLs,
//! file paths, emails), derived from prompt markers, or registered by UI
//! widgets and plugins.
use std::collections::HashMap;
use vstd::prelude::*;
use vstd::utf8::encode_utf8;
use crate::text::{lines, push_decimal, string_from_chars, string_of, text_lines, views, dec_digits};

verus! {

/// Type of focusable element.
#[derive(Debug, Clone, Copy, PartialEq, Eq, Hash, Structural)]
pub enum FocusableType {
    /// HTTP/HTTPS URL or www.* link
    Url,
    /// File system path (absolute or relative)
    FilePath,
    /// Email address (mailto: compatible)
    Email,
    /// Shell prompt marker (from OSC 133 sequences)
    PromptMarker,
    /// UI widget or interactive element
    Widget,
}

/// Source system that detected a focusable.
#[derive(Debug, Clone, Copy, PartialEq, Eq, Hash, Structural)]
pub enum FocusableSource {
    /// Detected by scanning terminal text content
    Terminal,
    /// Detected from a UI overlay
    Ratatui,
    /// Derived from prompt marker system (OSC 133)
    PromptMarker,
}

/// A focusable region: a specific area of the terminal that can be navigated
/// to and interacted with. Its on-screen position is computed by the
/// renderer from `grid_start`.
#[derive(Debug, PartialEq)]
pub struct FocusableRegion {
    /// Type of focusable element
    pub region_type: FocusableType,
    /// Starting position in terminal grid (column, row)
    pub grid_start: (u16, u16),
    /// Ending position in terminal grid (column, row) - exclusive
    pub grid_end: (u16, u16),
    /// Actual text content (URL, path, email, etc.)
    pub content: String,
    /// Source system that detected this focusable
    pub source: FocusableSource,
    /// Pane the focusable belongs to, when known
    pub pane_id: Option<u64>,
    /// Generation of the scan that produced it
    pub generation: u64,
}

impl Clone for FocusableRegion {
    fn clone(&self) -> (r: Self)
        ensures
            r == *self,
    {
        FocusableRegion {
            region_type: self.region_type,
            grid_start: self.grid_start,
            grid_end: self.grid_end,
            content: self.content.clone(),
            source: self.source,
            pane_id: self.pane_id,
            generation: self.generation,
        }
    }
}


// ==================== Scan configuration ====================

/// Configuration of focusable scanning.
#[derive(Debug, Clone)]
pub struct FocusableScanConfig {
    /// Pattern for URL detection
    pub url_regex: String,
    /// Pattern for file path detection
    pub filepath_regex: String,
    /// Pattern for email detection
    pub email_regex: String,
    /// Whether to scan on every frame (or only when entering hint mode)
    pub scan_on_frame: bool,
    /// Maximum number of focusables to detect
    pub max_focusables: usize,
}

/// HTTP(S) URLs and `www.` links.
pub const URL_PATTERN: &'static str = r"https?://[^\s<>{}|\^~\[\]`]+|www\.[^\s<>{}|\^~\[\]`]+";

/// Absolute and relative file paths with an extension.
pub const FILEPATH_PATTERN: &'static str = r"(?:~|\.{1,2}|/)?(?:[a-zA-Z0-9_\-./]+/)*[a-zA-Z0-9_\-.]+\.[a-zA-Z]{2,5}";

/// Email addresses.
pub const EMAIL_PATTERN: &'static str = r"[a-zA-Z0-9._%+-]+@[a-zA-Z0-9.-]+\.[a-zA-Z]{2,}";

impl FocusableScanConfig {
    /// The built-in patterns, scanning only on entering hint mode, at most
    /// 500 focusables.
    pub fn default() -> (c: Self)
        ensures
            c.url_regex@ == URL_PATTERN@,
            c.filepath_regex@ == FILEPATH_PATTERN@,
            c.email_regex@ == EMAIL_PATTERN@,
            !c.scan_on_frame,
            c.max_focusables == 500,
    {
        FocusableScanConfig {
            url_regex: string_of(URL_PATTERN),
            filepath_regex: string_of(FILEPATH_PATTERN),
            email_regex: string_of(EMAIL_PATTERN),
            scan_on_frame: false,
            max_focusables: 500,
        }
    }
}

// ==================== Patterns ====================

#[verifier::external_type_specification]
#[verifier::external_body]
pub struct ExRegex(regex::Regex);

/// A compiled regular expression with its source pattern.
pub struct CompiledPattern {
    source: String,
    regex: regex::Regex,
}

impl CompiledPattern {
    /// The pattern it was compiled from.
    pub closed spec fn pattern(&self) -> Seq<char> {
        self.source@
    }
}

/// One match of a pattern: byte offsets into the searched text and the
/// matched text.
#[derive(Debug, Clone)]
pub struct RegexMatch {
    pub start: usize,
    pub end: usize,
    pub text: String,
}

/// Whether `regex::Regex::new` accepts `pattern`.
pub uninterp spec fn regex_compiles(pattern: Seq<char>) -> bool;

/// The successive non-overlapping matches of `pattern` in `hay`, as
/// `regex::Regex::find_iter` yields them: start and end byte offsets and the
/// matched text.
pub uninterp spec fn regex_find_all(pattern: Seq<char>, hay: Seq<char>) -> Seq<(nat, nat, Seq<char>)>;

/// Compiles `pattern` with `regex::Regex::new`; the error becomes `None`.
/// Claimed: it succeeds exactly when the pattern compiles, and keeps its
/// source.
#[verifier::external_body]
fn compile_pattern(pattern: &str) -> (r: Option<CompiledPattern>)
    ensures
        r is Some <==> regex_compiles(pattern@),
        r matches Some(p) ==> p.pattern() == pattern@,
{
    match regex::Regex::new(pattern) {
        Ok(regex) => Some(CompiledPattern { source: pattern.to_string(), regex }),
        Err(_) => None,
    }
}

/// The view of a match.
pub open spec fn match_view(m: RegexMatch) -> (nat, nat, Seq<char>) {
    (m.start as nat, m.end as nat, m.text@)
}

/// A match lies within `hay`, and its text is the bytes of `hay` between its
/// offsets.
pub open spec fn match_in(hay: Seq<char>, m: RegexMatch) -> bool {
    &&& m.start <= m.end
    &&& m.end <= encode_utf8(hay).len()
    &&& encode_utf8(m.text@) == encode_utf8(hay).subrange(m.start as int, m.end as int)
}

/// All matches of a compiled pattern in `hay`, with
/// `regex::Regex::find_iter`. Claimed: they are the named matches; each lies
/// within `hay` with its text the slice of `hay` between its offsets
/// (`Match::start`, `Match::end`, `Match::as_str`); and they come in order,
/// without overlap.
#[verifier::external_body]
fn find_all(p: &CompiledPattern, hay: &str) -> (r: Vec<RegexMatch>)
    ensures
        r@.map_values(|m: RegexMatch| match_view(m)) == regex_find_all(p.pattern(), hay@),
        forall|i: int| 0 <= i < r@.len() ==> match_in(hay@, #[trigger] r@[i]),
        forall|i: int, j: int| 0 <= i < j < r@.len() ==> #[trigger] r@[i].end <= #[trigger] r@[j].start,
{
    p.regex.find_iter(hay).map(|m| RegexMatch { start: m.start(), end: m.end(), text: m.as_str().to_string() }).collect()
}

// ==================== Detection ====================

/// A detected focusable: content, type, start column and row, end column
/// and row.
pub type Detection = (String, FocusableType, u16, u16, u16, u16);

/// A detection with its content as characters.
pub type DetectionView = (Seq<char>, FocusableType, u16, u16, u16, u16);

/// The views of detections.
pub open spec fn detection_views(v: Seq<Detection>) -> Seq<DetectionView> {
    v.map_values(|d: Detection| (d.0@, d.1, d.2, d.3, d.4, d.5))
}

/// The detection of a match on row `row`.
pub open spec fn detection_of(m: (nat, nat, Seq<char>), t: FocusableType, row: int) -> DetectionView {
    (m.2, t, m.0 as u16, row as u16, m.1 as u16, row as u16)
}

/// The detections of a list of matches, of one type, on one row.
pub open spec fn detections_of(ms: Seq<(nat, nat, Seq<char>)>, t: FocusableType, row: int) -> Seq<DetectionView> {
    ms.map_values(|m: (nat, nat, Seq<char>)| detection_of(m, t, row))
}

/// A path match is kept when its text is longer than three bytes.
pub open spec fn long_path(m: (nat, nat, Seq<char>)) -> bool {
    encode_utf8(m.2).len() > 3
}

/// The path matches of a list that are long enough.
pub open spec fn long_paths(ms: Seq<(nat, nat, Seq<char>)>) -> Seq<(nat, nat, Seq<char>)>
    decreases ms.len(),
{
    if ms.len() == 0 {
        seq![]
    } else if long_path(ms.last()) {
        long_paths(ms.drop_last()).push(ms.last())
    } else {
        long_paths(ms.drop_last())
    }
}

/// Path matches are kept when longer than three bytes and dropped
/// otherwise, in their order: every kept match is longer than three bytes,
/// and when all matches are, all are kept.
pub proof fn lemma_long_paths(ms: Seq<(nat, nat, Seq<char>)>)
    ensures
        long_paths(ms).len() <= ms.len(),
        forall|i: int| 0 <= i < long_paths(ms).len() ==> encode_utf8((#[trigger] long_paths(ms)[i]).2).len() > 3,
        (forall|i: int| 0 <= i < ms.len() ==> encode_utf8((#[trigger] ms[i]).2).len() > 3) ==> long_paths(ms) == ms,
        (forall|i: int| 0 <= i < ms.len() ==> encode_utf8((#[trigger] ms[i]).2).len() <= 3) ==> long_paths(ms).len() == 0,
    decreases ms.len(),
{
    if ms.len() > 0 {
        let rest = ms.drop_last();
        lemma_long_paths(rest);
        if forall|i: int| 0 <= i < ms.len() ==> encode_utf8((#[trigger] ms[i]).2).len() > 3 {
            assert forall|i: int| 0 <= i < rest.len() implies encode_utf8((#[trigger] rest[i]).2).len() > 3 by {
                assert(rest[i] == ms[i]);
            }
            assert(encode_utf8(ms[ms.len() - 1].2).len() > 3);
            assert(rest.push(ms.last()) =~= ms);
        }
        if forall|i: int| 0 <= i < ms.len() ==> encode_utf8((#[trigger] ms[i]).2).len() <= 3 {
            assert forall|i: int| 0 <= i < rest.len() implies encode_utf8((#[trigger] rest[i]).2).len() <= 3 by {
                assert(rest[i] == ms[i]);
            }
            assert(encode_utf8(ms[ms.len() - 1].2).len() <= 3);
        }
    }
}

/// A detection made on row `row` of `line`: it carries the row, and when
/// the line is shorter than 2^16 bytes (so that byte offsets fit the
/// columns), its content is the bytes of the line between its columns.
pub open spec fn detected_in(line: Seq<char>, row: int, d: Detection) -> bool {
    &&& d.3 == row as u16 && d.5 == row as u16
    &&& encode_utf8(line).len() <= u16::MAX ==> d.2 <= d.4 && encode_utf8(d.0@) == encode_utf8(
        line,
    ).subrange(d.2 as int, d.4 as int)
}

/// A detection made in the text of lines `ls`: when there are at most 2^16
/// lines (so that row numbers fit), it lies on a line of the text, as
/// `detected_in` says.
pub open spec fn detected_in_text(ls: Seq<Seq<char>>, d: Detection) -> bool {
    ls.len() <= 0x10000 ==> d.3 < ls.len() && detected_in(ls[d.3 as int], d.3 as int, d)
}

/// Detector of focusables in terminal text, with its compiled patterns.
pub struct FocusableDetector {
    pub url_regex: CompiledPattern,
    pub filepath_regex: CompiledPattern,
    pub email_regex: CompiledPattern,
}

/// The detections on one line: its URLs, then its long enough paths, then
/// its emails, each in order.
pub open spec fn row_detections(d: FocusableDetector, line: Seq<char>, row: int) -> Seq<DetectionView> {
    detections_of(regex_find_all(d.url_regex.pattern(), line), FocusableType::Url, row)
        + detections_of(long_paths(regex_find_all(d.filepath_regex.pattern(), line)), FocusableType::FilePath, row)
        + detections_of(regex_find_all(d.email_regex.pattern(), line), FocusableType::Email, row)
}

/// The detections on the first `n` lines, row by row.
pub open spec fn detections_upto(d: FocusableDetector, ls: Seq<Seq<char>>, n: nat) -> Seq<DetectionView>
    decreases n,
{
    if n == 0 || n > ls.len() {
        seq![]
    } else {
        detections_upto(d, ls, (n - 1) as nat) + row_detections(d, ls[n - 1], n - 1)
    }
}

/// At most the first `max` elements of `s`.
pub open spec fn limited<T>(s: Seq<T>, max: nat) -> Seq<T> {
    if s.len() <= max {
        s
    } else {
        s.take(max as int)
    }
}

proof fn lemma_limited_append<T>(a: Seq<T>, b: Seq<T>, max: nat)
    ensures
        limited(limited(a, max) + b, max) == limited(a + b, max),
{
    if a.len() <= max {
    } else {
        assert(limited(a, max) + b == a.take(max as int) + b);
        assert((a.take(max as int) + b).take(max as int) =~= (a + b).take(max as int));
    }
}

proof fn lemma_upto_prefix(d: FocusableDetector, ls: Seq<Seq<char>>, k: nat, n: nat)
    requires
        k <= n <= ls.len(),
    ensures
        detections_upto(d, ls, k).is_prefix_of(detections_upto(d, ls, n)),
    decreases n - k,
{
    if k < n {
        lemma_upto_prefix(d, ls, k, (n - 1) as nat);
    }
}

impl FocusableDetector {
    /// Compile the configured patterns; each must compile.
    pub fn new(config: &FocusableScanConfig) -> (d: Self)
        requires
            regex_compiles(config.url_regex@),
            regex_compiles(config.filepath_regex@),
            regex_compiles(config.email_regex@),
        ensures
            d.url_regex.pattern() == config.url_regex@,
            d.filepath_regex.pattern() == config.filepath_regex@,
            d.email_regex.pattern() == config.email_regex@,
    {
        let url = compile_pattern(config.url_regex.as_str()).unwrap();
        let filepath = compile_pattern(config.filepath_regex.as_str()).unwrap();
        let email = compile_pattern(config.email_regex.as_str()).unwrap();
        FocusableDetector { url_regex: url, filepath_regex: filepath, email_regex: email }
    }

    /// Compile the configured patterns; `None` when one of them does not
    /// compile.
    pub fn try_new(config: &FocusableScanConfig) -> (d: Option<Self>)
        ensures
            d is Some <==> regex_compiles(config.url_regex@) && regex_compiles(config.filepath_regex@)
                && regex_compiles(config.email_regex@),
            d matches Some(d) ==> d.url_regex.pattern() == config.url_regex@
                && d.filepath_regex.pattern() == config.filepath_regex@
                && d.email_regex.pattern() == config.email_regex@,
    {
        let url = compile_pattern(config.url_regex.as_str());
        let filepath = compile_pattern(config.filepath_regex.as_str());
        let email = compile_pattern(config.email_regex.as_str());
        if url.is_some() && filepath.is_some() && email.is_some() {
            Some(Self::new(config))
        } else {
            None
        }
    }

    /// The detections on one line.
    fn detect_row(&self, line: &[char], row: usize) -> (out: Vec<Detection>)
        ensures
            detection_views(out@) == row_detections(*self, line@, row as int),
            forall|q: int| 0 <= q < out@.len() ==> detected_in(line@, row as int, #[trigger] out@[q]),
    {
        let text = string_from_chars(line);
        let mut out: Vec<Detection> = Vec::new();
        let urls = find_all(&self.url_regex, text.as_str());
        let mut i: usize = 0;
        while i < urls.len()
            invariant
                i <= urls@.len(),
                urls@.map_values(|m: RegexMatch| match_view(m)) == regex_find_all(self.url_regex.pattern(), line@),
                forall|q: int| 0 <= q < urls@.len() ==> match_in(line@, #[trigger] urls@[q]),
                forall|q: int| 0 <= q < out@.len() ==> detected_in(line@, row as int, #[trigger] out@[q]),
                detection_views(out@) == detections_of(regex_find_all(self.url_regex.pattern(), line@).take(i as int), FocusableType::Url, row as int),
            decreases urls.len() - i,
        {
            let m = &urls[i];
            let ghost prev = detection_views(out@);
            out.push((m.text.clone(), FocusableType::Url, m.start as u16, row as u16, m.end as u16, row as u16));
            proof {
                let ms = regex_find_all(self.url_regex.pattern(), line@);
                assert(ms[i as int] == match_view(urls@[i as int]));
                assert(ms.take(i + 1) =~= ms.take(i as int).push(ms[i as int]));
                assert(detection_views(out@) =~= prev.push(detection_of(ms[i as int], FocusableType::Url, row as int)));
                assert(detections_of(ms.take(i + 1), FocusableType::Url, row as int) =~= detections_of(ms.take(i as int), FocusableType::Url, row as int).push(detection_of(ms[i as int], FocusableType::Url, row as int)));
            }
            i = i + 1;
        }
        let ghost after_urls = detection_views(out@);
        proof {
            let ms = regex_find_all(self.url_regex.pattern(), line@);
            assert(ms.take(ms.len() as int) =~= ms);
        }
        let paths = find_all(&self.filepath_regex, text.as_str());
        let mut j: usize = 0;
        while j < paths.len()
            invariant
                j <= paths@.len(),
                paths@.map_values(|m: RegexMatch| match_view(m)) == regex_find_all(self.filepath_regex.pattern(), line@),
                forall|q: int| 0 <= q < paths@.len() ==> match_in(line@, #[trigger] paths@[q]),
                forall|q: int| 0 <= q < out@.len() ==> detected_in(line@, row as int, #[trigger] out@[q]),
                detection_views(out@) == after_urls + detections_of(long_paths(regex_find_all(self.filepath_regex.pattern(), line@).take(j as int)), FocusableType::FilePath, row as int),
            decreases paths.len() - j,
        {
            let m = &paths[j];
            let ghost ms = regex_find_all(self.filepath_regex.pattern(), line@);
            proof {
                assert(ms[j as int] == match_view(paths@[j as int]));
                assert(ms.take(j + 1).drop_last() =~= ms.take(j as int));
            }
            if m.text.as_str().as_bytes().len() > 3 {
                let ghost prev = detection_views(out@);
                out.push((m.text.clone(), FocusableType::FilePath, m.start as u16, row as u16, m.end as u16, row as u16));
                proof {
                    assert(detection_views(out@) =~= prev.push(detection_of(ms[j as int], FocusableType::FilePath, row as int)));
                    assert(long_paths(ms.take(j + 1)) == long_paths(ms.take(j as int)).push(ms[j as int]));
                    assert(detections_of(long_paths(ms.take(j + 1)), FocusableType::FilePath, row as int) =~= detections_of(long_paths(ms.take(j as int)), FocusableType::FilePath, row as int).push(detection_of(ms[j as int], FocusableType::FilePath, row as int)));
                    assert(detection_views(out@) =~= after_urls + detections_of(long_paths(ms.take(j + 1)), FocusableType::FilePath, row as int));
                }
            } else {
                proof {
                    assert(long_paths(ms.take(j + 1)) == long_paths(ms.take(j as int)));
                }
            }
            j = j + 1;
        }
        let ghost after_paths = detection_views(out@);
        proof {
            let ms = regex_find_all(self.filepath_regex.pattern(), line@);
            assert(ms.take(ms.len() as int) =~= ms);
        }
        let emails = find_all(&self.email_regex, text.as_str());
        let mut k: usize = 0;
        while k < emails.len()
            invariant
                k <= emails@.len(),
                emails@.map_values(|m: RegexMatch| match_view(m)) == regex_find_all(self.email_regex.pattern(), line@),
                forall|q: int| 0 <= q < emails@.len() ==> match_in(line@, #[trigger] emails@[q]),
                forall|q: int| 0 <= q < out@.len() ==> detected_in(line@, row as int, #[trigger] out@[q]),
                detection_views(out@) == after_paths + detections_of(regex_find_all(self.email_regex.pattern(), line@).take(k as int), FocusableType::Email, row as int),
            decreases emails.len() - k,
        {
            let m = &emails[k];
            let ghost prev = detection_views(out@);
            out.push((m.text.clone(), FocusableType::Email, m.start as u16, row as u16, m.end as u16, row as u16));
            proof {
                let ms = regex_find_all(self.email_regex.pattern(), line@);
                assert(ms[k as int] == match_view(emails@[k as int]));
                assert(ms.take(k + 1) =~= ms.take(k as int).push(ms[k as int]));
                assert(detection_views(out@) =~= prev.push(detection_of(ms[k as int], FocusableType::Email, row as int)));
                assert(detections_of(ms.take(k + 1), FocusableType::Email, row as int) =~= detections_of(ms.take(k as int), FocusableType::Email, row as int).push(detection_of(ms[k as int], FocusableType::Email, row as int)));
            }
            k = k + 1;
        }
        proof {
            let ms = regex_find_all(self.email_regex.pattern(), line@);
            assert(ms.take(ms.len() as int) =~= ms);
            assert(detection_views(out@) =~= row_detections(*self, line@, row as int));
        }
        out
    }

    /// Detect focusables in terminal text, line by line (URLs, then paths
    /// longer than three bytes, then emails on each line), keeping at most
    /// `max_focusables` of them.
    pub fn detect_all(&self, text: &str, max_focusables: usize) -> (out: Vec<Detection>)
        ensures
            detection_views(out@) == limited(
                detections_upto(*self, text_lines(text@), text_lines(text@).len()),
                max_focusables as nat,
            ),
            forall|q: int| 0 <= q < out@.len() ==> detected_in_text(text_lines(text@), #[trigger] out@[q]),
    {
        let ls = lines(text);
        let ghost lv = views(ls@);
        let ghost max = max_focusables as nat;
        let mut out: Vec<Detection> = Vec::new();
        let mut row: usize = 0;
        while row < ls.len()
            invariant
                lv == views(ls@),
                lv == text_lines(text@),
                max == max_focusables as nat,
                row <= ls@.len(),
                detection_views(out@) == limited(detections_upto(*self, lv, row as nat), max),
                forall|q: int| 0 <= q < out@.len() ==> detected_in_text(lv, #[trigger] out@[q]),
            decreases ls.len() - row,
        {
            let found = self.detect_row(ls[row].as_slice(), row);
            proof {
                assert(lv[row as int] == ls@[row as int]@);
            }
            let ghost before = detection_views(out@);
            let ghost fv = detection_views(found@);
            proof {
                assert(detection_views(out@).len() == out@.len());
            }
            let mut i: usize = 0;
            while i < found.len() && out.len() < max_focusables
                invariant
                    i <= found@.len(),
                    fv == detection_views(found@),
                    before == limited(detections_upto(*self, lv, row as nat), max),
                    before.len() <= max,
                    detection_views(out@) == before + fv.take(i as int),
                    out@.len() <= max,
                    max == max_focusables as nat,
                    row < lv.len(),
                    lv[row as int] == ls@[row as int]@,
                    forall|q: int| 0 <= q < found@.len() ==> detected_in(lv[row as int], row as int, #[trigger] found@[q]),
                    forall|q: int| 0 <= q < out@.len() ==> detected_in_text(lv, #[trigger] out@[q]),
                decreases found.len() - i,
            {
                let ghost prev = detection_views(out@);
                out.push(clone_detection(&found[i]));
                proof {
                    assert(detected_in(lv[row as int], row as int, found@[i as int]));
                    assert(out@[out@.len() - 1] == found@[i as int]);
                    assert(fv.take(i + 1) =~= fv.take(i as int).push(fv[i as int]));
                    assert(detection_views(out@) =~= prev.push(fv[i as int]));
                }
                i = i + 1;
            }
            proof {
                let all_before = detections_upto(*self, lv, row as nat);
                assert(lv[row as int] == ls@[row as int]@);
                assert(detections_upto(*self, lv, (row + 1) as nat) == all_before + fv);
                lemma_limited_append(all_before, fv, max);
                if i == found@.len() {
                    assert(fv.take(i as int) =~= fv);
                    assert(detection_views(out@) == before + fv);
                    assert((before + fv).len() <= max);
                } else {
                    assert(detection_views(out@).len() == max);
                    lemma_limited_prefix(detection_views(out@), before + fv, max);
                }
            }
            row = row + 1;
            if out.len() >= max_focusables {
                proof {
                    lemma_upto_prefix(*self, lv, row as nat, lv.len());
                    lemma_limited_of_prefix(detections_upto(*self, lv, row as nat), detections_upto(*self, lv, lv.len()), max);
                }
                return out;
            }
        }
        out
    }
}

/// A copy of a detection.
fn clone_detection(d: &Detection) -> (r: Detection)
    ensures
        r == *d,
{
    (d.0.clone(), d.1, d.2, d.3, d.4, d.5)
}

/// A sequence of at least `max` elements that begins `b` is its limit.
proof fn lemma_limited_prefix<T>(a: Seq<T>, b: Seq<T>, max: nat)
    requires
        a.len() == max,
        a.is_prefix_of(b),
    ensures
        limited(b, max) == a,
{
    assert(b.take(max as int) =~= a);
}

/// When the limit of `a` is already full, extending `a` keeps the limit.
proof fn lemma_limited_of_prefix<T>(a: Seq<T>, b: Seq<T>, max: nat)
    requires
        limited(a, max).len() >= max,
        a.is_prefix_of(b),
    ensures
        limited(b, max) == limited(a, max),
{
    assert(b.take(max as int) =~= a.take(max as int));
}


// ==================== Prompt markers, zones, generations ====================

/// The content shown for a prompt marker without a command: `Prompt at line
/// N`.
pub open spec fn prompt_label(line: u32) -> Seq<char> {
    "Prompt at line "@ + dec_digits(line as nat)
}

/// The focusable for the prompt that starts at `line`: its command text, or
/// a label naming the line, over the first ten columns of the line.
pub fn prompt_marker_region(line: u32, command_text: Option<String>) -> (r: FocusableRegion)
    ensures
        r.region_type == FocusableType::PromptMarker,
        r.grid_start == (0u16, line as u16),
        r.grid_end == (10u16, line as u16),
        r.content@ == match command_text {
            Some(t) => t@,
            None => prompt_label(line),
        },
        r.source == FocusableSource::PromptMarker,
        r.pane_id is None,
        r.generation == 0,
{
    let content = match command_text {
        Some(t) => t,
        None => {
            let mut s = string_of("Prompt at line ");
            push_decimal(&mut s, line as u64);
            s
        },
    };
    FocusableRegion {
        region_type: FocusableType::PromptMarker,
        grid_start: (0, line as u16),
        grid_end: (10, line as u16),
        content,
        source: FocusableSource::PromptMarker,
        pane_id: None,
        generation: 0,
    }
}

/// A region lies outside the prompt zone of lines `start_line` (inclusive)
/// to `end_line` (exclusive).
pub open spec fn outside_zone(r: FocusableRegion, start_line: u32, end_line: u32) -> bool {
    (r.grid_start.1 as u32) < start_line || (r.grid_start.1 as u32) >= end_line
}

/// Whether a region lies outside a prompt zone.
pub fn is_outside_zone(region: &FocusableRegion, start_line: u32, end_line: u32) -> (r: bool)
    ensures
        r == outside_zone(*region, start_line, end_line),
{
    let row: u32 = region.grid_start.1 as u32;
    row < start_line || row >= end_line
}

/// The indices of the regions that lie outside a prompt zone, in order.
pub fn regions_outside_zone(regions: &Vec<FocusableRegion>, start_line: u32, end_line: u32) -> (idx: Vec<usize>)
    ensures
        forall|k: int| 0 <= k < idx@.len() ==> idx@[k] < regions@.len() && outside_zone(regions@[idx@[k] as int], start_line, end_line),
        forall|j: int| 0 <= j < regions@.len() && outside_zone(regions@[j], start_line, end_line) ==> idx@.contains(j as usize),
        forall|a: int, b: int| 0 <= a < b < idx@.len() ==> idx@[a] < idx@[b],
{
    let mut idx: Vec<usize> = Vec::new();
    let mut i: usize = 0;
    while i < regions.len()
        invariant
            i <= regions@.len(),
            forall|k: int| 0 <= k < idx@.len() ==> idx@[k] < i && outside_zone(regions@[idx@[k] as int], start_line, end_line),
            forall|j: int| 0 <= j < i && outside_zone(regions@[j], start_line, end_line) ==> idx@.contains(j as usize),
            forall|a: int, b: int| 0 <= a < b < idx@.len() ==> idx@[a] < idx@[b],
        decreases regions.len() - i,
    {
        let ghost prev = idx@;
        if is_outside_zone(&regions[i], start_line, end_line) {
            idx.push(i);
            proof {
                assert(idx@[idx@.len() - 1] == i);
                assert forall|j: int| 0 <= j < i + 1 && outside_zone(regions@[j], start_line, end_line) implies idx@.contains(j as usize) by {
                    if j < i {
                        let w = choose|w: int| 0 <= w < prev.len() && prev[w] == j as usize;
                        assert(idx@[w] == j as usize);
                    }
                }
            }
        }
        i = i + 1;
    }
    idx
}

/// Generation counters per pane: each refresh of a pane's content starts a
/// new generation, so that focusables from older scans can be told apart.
#[derive(Debug, Clone)]
pub struct FocusableGeneration {
    generations: HashMap<u64, u64>,
}

impl View for FocusableGeneration {
    type V = Map<u64, u64>;

    closed spec fn view(&self) -> Map<u64, u64> {
        self.generations@
    }
}

/// The generation of a pane: zero until its first refresh.
pub open spec fn generation_of(m: Map<u64, u64>, pane: u64) -> u64 {
    if m.contains_key(pane) {
        m[pane]
    } else {
        0
    }
}

impl FocusableGeneration {
    /// Every pane at generation zero.
    pub fn new() -> (g: Self)
        ensures
            g@ == Map::<u64, u64>::empty(),
    {
        FocusableGeneration { generations: HashMap::new() }
    }

    /// The current generation of a pane.
    pub fn get_pane_generation(&self, pane_id: u64) -> (r: u64)
        ensures
            r == generation_of(self@, pane_id),
    {
        match self.generations.get(&pane_id) {
            Some(g) => *g,
            None => 0,
        }
    }

    /// Start a new generation for a pane; returns it.
    pub fn increment_pane(&mut self, pane_id: u64) -> (r: u64)
        requires
            generation_of(old(self)@, pane_id) < u64::MAX,
        ensures
            r == generation_of(old(self)@, pane_id) + 1,
            final(self)@ == old(self)@.insert(pane_id, r),
    {
        let next = self.get_pane_generation(pane_id) + 1;
        self.generations.insert(pane_id, next);
        next
    }

    /// Forget a closed pane's generation.
    pub fn remove_pane(&mut self, pane_id: u64)
        ensures
            final(self)@ == old(self)@.remove(pane_id),
    {
        self.generations.remove(&pane_id);
    }
}

/// Refreshing one pane leaves the generations of the others as they were.
pub proof fn lemma_refresh_isolated(m: Map<u64, u64>, pane: u64, other: u64, r: u64)
    requires
        other != pane,
    ensures
        generation_of(m.insert(pane, r), other) == generation_of(m, other),
        generation_of(m.insert(pane, r), pane) == r,
{
}

} // verus!
