use vstd::prelude::*;

use crate::occupancy::{
    spec_from_map, spec_insert, view_result, ExtractError, ExtractErrorView, Occupancy,
    RawExtractionMap,
};
use crate::parse::{spec_parse_bounded, parse_bounded};

verus! {

/// What one structural probe of an item block found: the sought child tag was
/// absent, present but empty, or present with a first text node (carried
/// trimmed).
#[derive(Debug)]
pub enum TagText {
    Missing,
    NoText,
    Text(String),
}

impl View for TagText {
    type V = Option<Option<Seq<char>>>;

    open spec fn view(&self) -> Option<Option<Seq<char>>> {
        match self {
            TagText::Missing => None,
            TagText::NoText => Some(None),
            TagText::Text(s) => Some(Some(s@)),
        }
    }
}

/// How a span's text encodes a percentage: it must end in the literal
/// suffix `" %"`, and the rest must read as an integer no larger than 255
/// under `str::parse`. Values over 100 are deliberately not rejected.
pub open spec fn spec_parse_percent(t: Seq<char>) -> Option<u8> {
    if t.len() >= 2 && t[t.len() - 2] == ' ' && t.last() == '%' {
        match spec_parse_bounded(t.take(t.len() - 2), 255) {
            Some(v) => Some(v as u8),
            None => None,
        }
    } else {
        None
    }
}

/// Reads a `"NN %"` span text as its percentage value, or nothing when the
/// text is not of that form.
pub fn parse_percent(s: &str) -> (r: Option<u8>)
    ensures
        r == spec_parse_percent(s@),
{
    let n = s.unicode_len();
    if n < 2 {
        return None;
    }
    if s.get_char(n - 2) != ' ' || s.get_char(n - 1) != '%' {
        return None;
    }
    let prefix = s.substring_char(0, n - 2);
    match parse_bounded(prefix, 255) {
        Some(v) => Some(v as u8),
        None => None,
    }
}

/// The label and value one item block contributes, or the exact error that
/// stops the scan there: a missing or empty `p` or `span`, or a span text
/// that is not a valid percentage (carried verbatim in the error).
pub open spec fn spec_item(p: Option<Option<Seq<char>>>, s: Option<Option<Seq<char>>>) -> Result<
    (Seq<char>, u8),
    ExtractErrorView,
> {
    match p {
        None => Err(ExtractErrorView::TagNotFound("p"@)),
        Some(None) => Err(ExtractErrorView::TagHasNoText("p"@)),
        Some(Some(label)) => match s {
            None => Err(ExtractErrorView::TagNotFound("span"@)),
            Some(None) => Err(ExtractErrorView::TagHasNoText("span"@)),
            Some(Some(t)) => match spec_parse_percent(t) {
                None => Err(ExtractErrorView::TagHasUnexpectedText("span"@, t)),
                Some(v) => Ok((label, v)),
            },
        },
    }
}

/// The empty label-to-value map a scan starts from.
pub open spec fn spec_empty_map() -> RawExtractionMap {
    RawExtractionMap { thermalbad: None, saunawelt: None, parkhaus: None }
}

/// The left-to-right scan of the item blocks: each block's label and value
/// are folded into the map, and the first failing block aborts the whole
/// scan with its error.
pub open spec fn spec_scan(
    ps: Seq<Option<Option<Seq<char>>>>,
    ss: Seq<Option<Option<Seq<char>>>>,
    acc: RawExtractionMap,
) -> Result<RawExtractionMap, ExtractErrorView>
    decreases ps.len(),
{
    if ps.len() == 0 {
        Ok(acc)
    } else {
        match spec_item(ps[0], ss[0]) {
            Err(e) => Err(e),
            Ok(lv) => spec_scan(ps.drop_first(), ss.drop_first(), spec_insert(acc, lv.0, lv.1)),
        }
    }
}

/// The whole extraction: scan every item block, then require all three
/// tracked labels; all-or-nothing, never a partial reading.
pub open spec fn spec_extract(
    ps: Seq<Option<Option<Seq<char>>>>,
    ss: Seq<Option<Option<Seq<char>>>>,
) -> Result<Occupancy, ExtractErrorView> {
    match spec_scan(ps, ss, spec_empty_map()) {
        Err(e) => Err(e),
        Ok(m) => spec_from_map(m),
    }
}

/// For each item block of the page, the trimmed first text node of its first
/// `p` descendant: outer `None` when the block has no `p`, inner `None` when
/// the `p` has no text node.
pub uninterp spec fn p_texts_of(html: Seq<char>) -> Seq<Option<Option<Seq<char>>>>;

/// For each item block of the page, the trimmed first text node of its first
/// `span` descendant, encoded as `p_texts_of` is.
pub uninterp spec fn span_texts_of(html: Seq<char>) -> Seq<Option<Option<Seq<char>>>>;

/// Relies on scraper's `Html::parse_document`, `Html::select`,
/// `ElementRef::select` and `ElementRef::text`: yields, for each element
/// matching `div.modulAuslastugsGrid div.item-aus.center` in document order,
/// the trimmed first text node of its first `p` descendant. The same
/// selection drives `scrape_span_texts`, so the two yield equally many
/// entries.
#[verifier::external_body]
fn scrape_p_texts(html: &str) -> (r: Vec<TagText>)
    ensures
        r@.map_values(|t: TagText| t@) == p_texts_of(html@),
        r@.len() == span_texts_of(html@).len(),
{
    let items = scraper::Selector::parse("div.modulAuslastugsGrid div.item-aus.center").unwrap();
    let tag = scraper::Selector::parse("p").unwrap();
    let doc = scraper::Html::parse_document(html);
    doc.select(&items)
        .map(|item| match item.select(&tag).next() {
            None => TagText::Missing,
            Some(el) => match el.text().next() {
                None => TagText::NoText,
                Some(t) => TagText::Text(t.trim().to_string()),
            },
        })
        .collect()
}

/// Relies on scraper exactly as `scrape_p_texts` does, probing each item
/// block's first `span` descendant instead.
#[verifier::external_body]
fn scrape_span_texts(html: &str) -> (r: Vec<TagText>)
    ensures
        r@.map_values(|t: TagText| t@) == span_texts_of(html@),
{
    let items = scraper::Selector::parse("div.modulAuslastugsGrid div.item-aus.center").unwrap();
    let tag = scraper::Selector::parse("span").unwrap();
    let doc = scraper::Html::parse_document(html);
    doc.select(&items)
        .map(|item| match item.select(&tag).next() {
            None => TagText::Missing,
            Some(el) => match el.text().next() {
                None => TagText::NoText,
                Some(t) => TagText::Text(t.trim().to_string()),
            },
        })
        .collect()
}

/// Runs the verified scan over already-probed item blocks: `ps` and `ss`
/// carry, block by block, what the `p` and `span` probes found.
pub fn extract_from_texts(ps: &Vec<TagText>, ss: &Vec<TagText>) -> (r: Result<
    Occupancy,
    ExtractError,
>)
    requires
        ps@.len() == ss@.len(),
    ensures
        view_result(r) == spec_extract(
            ps@.map_values(|t: TagText| t@),
            ss@.map_values(|t: TagText| t@),
        ),
{
    let ghost psv = ps@.map_values(|t: TagText| t@);
    let ghost ssv = ss@.map_values(|t: TagText| t@);
    let mut map = RawExtractionMap::new();
    let mut i: usize = 0;
    proof {
        assert(psv.skip(0) =~= psv);
        assert(ssv.skip(0) =~= ssv);
    }
    while i < ps.len()
        invariant
            psv == ps@.map_values(|t: TagText| t@),
            ssv == ss@.map_values(|t: TagText| t@),
            ps@.len() == ss@.len(),
            i <= ps@.len(),
            spec_scan(psv, ssv, spec_empty_map()) == spec_scan(
                psv.skip(i as int),
                ssv.skip(i as int),
                map,
            ),
        decreases ps@.len() - i,
    {
        proof {
            assert(psv.skip(i as int)[0] == psv[i as int]);
            assert(ssv.skip(i as int)[0] == ssv[i as int]);
        }
        let value: u8;
        let label: &String;
        match &ps[i] {
            TagText::Missing => {
                return Err(ExtractError::TagNotFound(String::from_str("p")));
            },
            TagText::NoText => {
                return Err(ExtractError::TagHasNoText(String::from_str("p")));
            },
            TagText::Text(l) => {
                match &ss[i] {
                    TagText::Missing => {
                        return Err(ExtractError::TagNotFound(String::from_str("span")));
                    },
                    TagText::NoText => {
                        return Err(ExtractError::TagHasNoText(String::from_str("span")));
                    },
                    TagText::Text(t) => {
                        match parse_percent(t.as_str()) {
                            None => {
                                return Err(
                                    ExtractError::TagHasUnexpectedText(
                                        String::from_str("span"),
                                        t.clone(),
                                    ),
                                );
                            },
                            Some(v) => {
                                value = v;
                                label = l;
                            },
                        }
                    },
                }
            },
        }
        map.insert(label, value);
        proof {
            assert(psv.skip(i as int).drop_first() =~= psv.skip(i + 1));
            assert(ssv.skip(i as int).drop_first() =~= ssv.skip(i + 1));
        }
        i = i + 1;
    }
    proof {
        assert(psv.skip(i as int) =~= Seq::<Option<Option<Seq<char>>>>::empty());
    }
    Occupancy::from_hashmap(&map)
}

/// The scan reports the first failing item block's error: whenever every
/// block before position `i` is sound and block `i` fails, the whole scan
/// fails with exactly block `i`'s error, whatever map it started from.
pub proof fn lemma_scan_first_error(
    ps: Seq<Option<Option<Seq<char>>>>,
    ss: Seq<Option<Option<Seq<char>>>>,
    acc: RawExtractionMap,
    i: int,
)
    requires
        ps.len() == ss.len(),
        0 <= i < ps.len(),
        forall|j: int| 0 <= j < i ==> spec_item(ps[j], ss[j]) is Ok,
        spec_item(ps[i], ss[i]) is Err,
    ensures
        spec_scan(ps, ss, acc) == Err::<RawExtractionMap, ExtractErrorView>(
            spec_item(ps[i], ss[i])->Err_0,
        ),
    decreases i,
{
    if i == 0 {
    } else {
        assert(spec_item(ps[0], ss[0]) is Ok);
        let lv = spec_item(ps[0], ss[0])->Ok_0;
        let dp = ps.drop_first();
        let ds = ss.drop_first();
        assert forall|j: int| 0 <= j < i - 1 implies spec_item(dp[j], ds[j]) is Ok by {
            assert(dp[j] == ps[j + 1]);
            assert(ds[j] == ss[j + 1]);
        }
        assert(dp[i - 1] == ps[i]);
        assert(ds[i - 1] == ss[i]);
        lemma_scan_first_error(dp, ds, spec_insert(acc, lv.0, lv.1), i - 1);
    }
}

/// Whenever the first structurally bad item block is one that lacks its
/// paragraph child, extraction fails with `TagNotFound("p")`, never with any
/// other kind.
pub proof fn lemma_missing_paragraph_reported(
    ps: Seq<Option<Option<Seq<char>>>>,
    ss: Seq<Option<Option<Seq<char>>>>,
    i: int,
)
    requires
        ps.len() == ss.len(),
        0 <= i < ps.len(),
        forall|j: int| 0 <= j < i ==> spec_item(ps[j], ss[j]) is Ok,
        ps[i] is None,
    ensures
        spec_extract(ps, ss) == Err::<Occupancy, ExtractErrorView>(
            ExtractErrorView::TagNotFound("p"@),
        ),
{
    lemma_scan_first_error(ps, ss, spec_empty_map(), i);
}

/// Whenever the first structurally bad item block carries a span text that
/// is not of the `"NN %"` form, extraction fails with
/// `TagHasUnexpectedText("span", ..)` carrying that text verbatim.
pub proof fn lemma_bad_span_text_reported(
    ps: Seq<Option<Option<Seq<char>>>>,
    ss: Seq<Option<Option<Seq<char>>>>,
    i: int,
    label: Seq<char>,
    t: Seq<char>,
)
    requires
        ps.len() == ss.len(),
        0 <= i < ps.len(),
        forall|j: int| 0 <= j < i ==> spec_item(ps[j], ss[j]) is Ok,
        ps[i] == Some(Some(label)),
        ss[i] == Some(Some(t)),
        spec_parse_percent(t) is None,
    ensures
        spec_extract(ps, ss) == Err::<Occupancy, ExtractErrorView>(
            ExtractErrorView::TagHasUnexpectedText("span"@, t),
        ),
{
    lemma_scan_first_error(ps, ss, spec_empty_map(), i);
}

/// Whenever the scan succeeds but exactly one tracked label never appeared,
/// extraction fails with `OccupancyValueNotFound` naming that label.
pub proof fn lemma_one_absent_label_reported(
    ps: Seq<Option<Option<Seq<char>>>>,
    ss: Seq<Option<Option<Seq<char>>>>,
    m: RawExtractionMap,
)
    requires
        spec_scan(ps, ss, spec_empty_map()) == Ok::<RawExtractionMap, ExtractErrorView>(m),
        (m.thermalbad is None && m.saunawelt is Some && m.parkhaus is Some) || (m.thermalbad
            is Some && m.saunawelt is None && m.parkhaus is Some) || (m.thermalbad is Some
            && m.saunawelt is Some && m.parkhaus is None),
    ensures
        spec_extract(ps, ss) == Err::<Occupancy, ExtractErrorView>(
            ExtractErrorView::OccupancyValueNotFound(
                if m.thermalbad is None {
                    "Thermalbad"@
                } else if m.saunawelt is None {
                    "Saunawelt"@
                } else {
                    "Parkhaus"@
                },
            ),
        ),
{
}

/// Order independence of a complete page: three item blocks carrying the
/// three tracked labels with valid percentage spans yield, in whatever
/// order they stand in the document, the reading with each value under its
/// own label.
pub proof fn lemma_three_labels_any_order(
    ps: Seq<Option<Option<Seq<char>>>>,
    ss: Seq<Option<Option<Seq<char>>>>,
    i: int,
    j: int,
    k: int,
    vt: u8,
    vs: u8,
    vp: u8,
)
    requires
        ps.len() == 3,
        ss.len() == 3,
        0 <= i < 3,
        0 <= j < 3,
        0 <= k < 3,
        i != j,
        i != k,
        j != k,
        spec_item(ps[i], ss[i]) == Ok::<(Seq<char>, u8), ExtractErrorView>(("Thermalbad"@, vt)),
        spec_item(ps[j], ss[j]) == Ok::<(Seq<char>, u8), ExtractErrorView>(("Saunawelt"@, vs)),
        spec_item(ps[k], ss[k]) == Ok::<(Seq<char>, u8), ExtractErrorView>(("Parkhaus"@, vp)),
    ensures
        spec_extract(ps, ss) == Ok::<Occupancy, ExtractErrorView>(
            Occupancy { thermalbad: vt, saunawelt: vs, parkhaus: vp },
        ),
{
    reveal_strlit("Thermalbad");
    reveal_strlit("Saunawelt");
    reveal_strlit("Parkhaus");
    assert("Thermalbad"@.len() == 10);
    assert("Saunawelt"@.len() == 9);
    assert("Parkhaus"@.len() == 8);
    reveal_with_fuel(spec_scan, 4);
    let dp1 = ps.drop_first();
    let ds1 = ss.drop_first();
    let dp2 = dp1.drop_first();
    let ds2 = ds1.drop_first();
    assert(dp1[0] == ps[1] && dp1[1] == ps[2] && ds1[0] == ss[1] && ds1[1] == ss[2]);
    assert(dp2[0] == ps[2] && ds2[0] == ss[2]);
    assert(dp2.drop_first().len() == 0);
    assert(spec_extract(ps, ss) == Ok::<Occupancy, ExtractErrorView>(
        Occupancy { thermalbad: vt, saunawelt: vs, parkhaus: vp },
    ));
}

/// Extracts the three tracked occupancy percentages out of a page's HTML
/// text: every item block must be structurally sound, and every tracked
/// label must appear; otherwise the exact error of the first failure comes
/// back and no reading is produced.
pub fn extract(html: &str) -> (r: Result<Occupancy, ExtractError>)
    ensures
        view_result(r) == spec_extract(p_texts_of(html@), span_texts_of(html@)),
{
    let ps = scrape_p_texts(html);
    let ss = scrape_span_texts(html);
    extract_from_texts(&ps, &ss)
}

} // verus!
