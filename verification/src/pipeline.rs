use vstd::prelude::*;
use vstd::string::StringExecFns;

use crate::records::{Config, Feed, Headline, HeadlineV, Article, ArticleV};
use crate::protocol::{TtrssOperation, OpV};

verus! {

/// A headline matched to its article by identical id: the unit handed
/// to mail conversion.
pub struct CorrelatedUnit {
    pub headline: Headline,
    pub article: Article,
}

pub struct CorrelatedUnitV {
    pub headline: HeadlineV,
    pub article: ArticleV,
}

impl View for CorrelatedUnit {
    type V = CorrelatedUnitV;

    open spec fn view(&self) -> CorrelatedUnitV {
        CorrelatedUnitV { headline: self.headline@, article: self.article@ }
    }
}

impl DeepView for CorrelatedUnit {
    type V = CorrelatedUnitV;

    open spec fn deep_view(&self) -> CorrelatedUnitV {
        self.view()
    }
}

/// The first article of the list carrying the given id, if any.
pub open spec fn article_with_id(ars: Seq<ArticleV>, id: u32) -> Option<ArticleV>
    decreases ars.len(),
{
    if ars.len() == 0 {
        None
    } else if ars.first().id == id {
        Some(ars.first())
    } else {
        article_with_id(ars.drop_first(), id)
    }
}

/// Whether any article of the list carries the given id.
pub open spec fn has_article(ars: Seq<ArticleV>, id: u32) -> bool {
    exists|j: int| 0 <= j < ars.len() && ars[j].id == id
}

/// The id-keyed join of a feed's headlines with its fetched articles:
/// for each headline in order, the unit pairing it with an article of
/// equal id, or — when the server omitted the id — its id recorded as
/// a correlation gap. Pairing is by id equality, never by position.
pub open spec fn correlate_spec(hls: Seq<HeadlineV>, ars: Seq<ArticleV>) -> (Seq<
    CorrelatedUnitV,
>, Seq<u32>)
    decreases hls.len(),
{
    if hls.len() == 0 {
        (Seq::<CorrelatedUnitV>::empty(), Seq::<u32>::empty())
    } else {
        let prior = correlate_spec(hls.drop_last(), ars);
        match article_with_id(ars, hls.last().id) {
            Some(a) => (prior.0.push(CorrelatedUnitV { headline: hls.last(), article: a }), prior.1),
            None => (prior.0, prior.1.push(hls.last().id)),
        }
    }
}

/// The headline ids of a unit list, in order.
pub open spec fn unit_ids(us: Seq<CorrelatedUnitV>) -> Seq<u32> {
    us.map_values(|u: CorrelatedUnitV| u.headline.id)
}

/// The position of the first article carrying the given id, if any.
fn find_article(ars: &Vec<Article>, id: u32) -> (r: Option<usize>)
    ensures
        ({
            let s = ars.deep_view();
            match r {
                Some(i) => (i as int) < s.len() && s[i as int].id == id && (forall|j: int|
                    0 <= j < i ==> s[j].id != id),
                None => forall|j: int| 0 <= j < s.len() ==> s[j].id != id,
            }
        }),
{
    let mut i: usize = 0;
    while i < ars.len()
        invariant
            i <= ars.len(),
            forall|j: int| 0 <= j < i ==> ars.deep_view()[j].id != id,
        decreases ars.len() - i,
    {
        if ars[i].id == id {
            proof {
                assert(ars.deep_view()[i as int].id == id);
            }
            return Some(i);
        }
        proof {
            assert(ars.deep_view()[i as int].id != id);
        }
        i = i + 1;
    }
    None
}

/// The first match of a linear scan is what `article_with_id` names.
proof fn lemma_first_match(ars: Seq<ArticleV>, id: u32, i: int)
    requires
        0 <= i < ars.len(),
        ars[i].id == id,
        forall|j: int| 0 <= j < i ==> ars[j].id != id,
    ensures
        article_with_id(ars, id) == Some(ars[i]),
    decreases i,
{
    if i > 0 {
        lemma_first_match(ars.drop_first(), id, i - 1);
    }
}

/// A list in which no article carries the id yields no match.
proof fn lemma_no_match(ars: Seq<ArticleV>, id: u32)
    requires
        forall|j: int| 0 <= j < ars.len() ==> ars[j].id != id,
    ensures
        article_with_id(ars, id) is None,
    decreases ars.len(),
{
    if ars.len() > 0 {
        lemma_no_match(ars.drop_first(), id);
    }
}

/// What `article_with_id` finds carries the id it was asked for.
pub proof fn lemma_found_id(ars: Seq<ArticleV>, id: u32)
    requires
        article_with_id(ars, id) is Some,
    ensures
        article_with_id(ars, id)->Some_0.id == id,
    decreases ars.len(),
{
    if ars.len() > 0 && ars.first().id != id {
        lemma_found_id(ars.drop_first(), id);
    }
}

/// A match exists exactly when some article of the list carries the
/// id.
pub proof fn lemma_match_iff_present(ars: Seq<ArticleV>, id: u32)
    ensures
        article_with_id(ars, id) is Some <==> has_article(ars, id),
    decreases ars.len(),
{
    if ars.len() > 0 {
        lemma_match_iff_present(ars.drop_first(), id);
        if ars.first().id == id {
            assert(ars[0].id == id);
        } else {
            if has_article(ars.drop_first(), id) {
                let j = choose|j: int| 0 <= j < ars.drop_first().len() && ars.drop_first()[j].id
                    == id;
                assert(ars[j + 1].id == id);
            }
            if has_article(ars, id) {
                let j = choose|j: int| 0 <= j < ars.len() && ars[j].id == id;
                assert(ars.drop_first()[j - 1].id == id);
            }
        }
    }
}

/// Joins headlines and articles by id equality, exactly as
/// `correlate_spec` describes: the units in headline order, and the
/// ids of the headlines the server returned no article for, reported
/// as correlation gaps rather than misaligned pairs.
pub fn correlate(hls: &Vec<Headline>, ars: &Vec<Article>) -> (r: (Vec<CorrelatedUnit>, Vec<u32>))
    ensures
        r.0.deep_view() == correlate_spec(hls.deep_view(), ars.deep_view()).0,
        r.1@ == correlate_spec(hls.deep_view(), ars.deep_view()).1,
{
    let ghost hdv = hls.deep_view();
    let ghost adv = ars.deep_view();
    let mut units: Vec<CorrelatedUnit> = Vec::new();
    let mut gaps: Vec<u32> = Vec::new();
    let mut i: usize = 0;
    while i < hls.len()
        invariant
            i <= hls.len(),
            hdv == hls.deep_view(),
            adv == ars.deep_view(),
            units.deep_view() == correlate_spec(hdv.take(i as int), adv).0,
            gaps@ == correlate_spec(hdv.take(i as int), adv).1,
        decreases hls.len() - i,
    {
        let h: &Headline = &hls[i];
        proof {
            assert(h@ == hdv[i as int]);
            assert(hdv.take(i as int + 1).drop_last() =~= hdv.take(i as int));
            assert(hdv.take(i as int + 1).last() == hdv[i as int]);
        }
        match find_article(ars, h.id) {
            Some(j) => {
                proof {
                    lemma_first_match(adv, h.id, j as int);
                }
                let a = ars[j].duplicate();
                let u = CorrelatedUnit { headline: h.duplicate(), article: a };
                let ghost uv = u@;
                let ghost prev_dv = units.deep_view();
                units.push(u);
                proof {
                    assert(units.deep_view() =~= prev_dv.push(uv));
                }
            },
            None => {
                proof {
                    lemma_no_match(adv, h.id);
                }
                gaps.push(h.id);
            },
        }
        i = i + 1;
    }
    proof {
        assert(hdv.take(hls.len() as int) =~= hdv);
    }
    (units, gaps)
}

/// Every unit the join produces pairs a headline and an article of
/// equal id: correlation is established by id equality alone.
pub proof fn lemma_units_ids_match(hls: Seq<HeadlineV>, ars: Seq<ArticleV>)
    ensures
        forall|k: int| 0 <= k < correlate_spec(hls, ars).0.len() ==> (#[trigger] correlate_spec(
            hls,
            ars,
        ).0[k]).headline.id == correlate_spec(hls, ars).0[k].article.id,
    decreases hls.len(),
{
    if hls.len() > 0 {
        lemma_units_ids_match(hls.drop_last(), ars);
        let prior = correlate_spec(hls.drop_last(), ars).0;
        let us = correlate_spec(hls, ars).0;
        match article_with_id(ars, hls.last().id) {
            Some(a) => {
                lemma_found_id(ars, hls.last().id);
                assert forall|k: int| 0 <= k < us.len() implies (#[trigger] us[k]).headline.id
                    == us[k].article.id by {
                    if k < prior.len() {
                        assert(us[k] == prior[k]);
                    } else {
                        assert(us[k] == CorrelatedUnitV { headline: hls.last(), article: a });
                    }
                }
            },
            None => {
                assert(us == prior);
            },
        }
    }
}

/// Units and gaps together account for every headline exactly once.
pub proof fn lemma_units_and_gaps_count(hls: Seq<HeadlineV>, ars: Seq<ArticleV>)
    ensures
        correlate_spec(hls, ars).0.len() + correlate_spec(hls, ars).1.len() == hls.len(),
    decreases hls.len(),
{
    if hls.len() > 0 {
        lemma_units_and_gaps_count(hls.drop_last(), ars);
    }
}

/// The join partitions the headlines exactly: the unit ids are the
/// headline ids whose article is present, in headline order, and the
/// gap ids are the headline ids whose article is absent, in headline
/// order. No unit is invented and none is misaligned.
pub proof fn lemma_join_partitions_headlines(hls: Seq<HeadlineV>, ars: Seq<ArticleV>)
    ensures
        unit_ids(correlate_spec(hls, ars).0) == headline_ids(hls).filter(
            |id: u32| has_article(ars, id),
        ),
        correlate_spec(hls, ars).1 == headline_ids(hls).filter(|id: u32| !has_article(ars, id)),
    decreases hls.len(),
{
    reveal(Seq::filter);
    let ids = headline_ids(hls);
    if hls.len() == 0 {
        assert(ids =~= Seq::<u32>::empty());
        assert(unit_ids(correlate_spec(hls, ars).0) =~= Seq::<u32>::empty());
    } else {
        lemma_join_partitions_headlines(hls.drop_last(), ars);
        lemma_match_iff_present(ars, hls.last().id);
        assert(ids.drop_last() =~= headline_ids(hls.drop_last()));
        assert(ids.last() == hls.last().id);
        let prior = correlate_spec(hls.drop_last(), ars);
        match article_with_id(ars, hls.last().id) {
            Some(a) => {
                let u = CorrelatedUnitV { headline: hls.last(), article: a };
                assert(unit_ids(prior.0.push(u)) =~= unit_ids(prior.0).push(hls.last().id));
            },
            None => {},
        }
    }
}

/// The produced unit ids and gap ids depend only on the headline
/// sequence and on which article ids are present — not on the order
/// or multiplicity of the article list. In particular two fetches of
/// an unchanged server state yield identical ids: no id derives from
/// fetch order or position.
pub proof fn lemma_correlation_ids_stable(
    hls: Seq<HeadlineV>,
    ars1: Seq<ArticleV>,
    ars2: Seq<ArticleV>,
)
    requires
        forall|id: u32| #[trigger] has_article(ars1, id) <==> #[trigger] has_article(ars2, id),
    ensures
        unit_ids(correlate_spec(hls, ars1).0) == unit_ids(correlate_spec(hls, ars2).0),
        correlate_spec(hls, ars1).1 == correlate_spec(hls, ars2).1,
    decreases hls.len(),
{
    if hls.len() == 0 {
        assert(unit_ids(correlate_spec(hls, ars1).0) =~= unit_ids(correlate_spec(hls, ars2).0));
    } else {
        lemma_correlation_ids_stable(hls.drop_last(), ars1, ars2);
        let id = hls.last().id;
        lemma_match_iff_present(ars1, id);
        lemma_match_iff_present(ars2, id);
        if article_with_id(ars1, id) is Some {
            lemma_found_id(ars1, id);
            lemma_found_id(ars2, id);
            assert(unit_ids(correlate_spec(hls, ars1).0) =~= unit_ids(
                correlate_spec(hls.drop_last(), ars1).0,
            ).push(id));
            assert(unit_ids(correlate_spec(hls, ars2).0) =~= unit_ids(
                correlate_spec(hls.drop_last(), ars2).0,
            ).push(id));
        }
    }
}

/// The digits of `n` written in decimal.
pub open spec fn dec_digits(n: nat) -> Seq<char>
    decreases n,
{
    if n < 10 {
        seq![digit_char(n)]
    } else {
        dec_digits(n / 10).push(digit_char(n % 10))
    }
}

/// The character of one decimal digit.
pub open spec fn digit_char(d: nat) -> char {
    ((d + 48) as u8) as char
}

/// Relies on u32's Display implementation (through ToString): an
/// unsigned integer formats as its decimal digits, most significant
/// first, with no sign, padding or separators.
#[verifier::external_body]
fn u32_decimal(n: u32) -> (r: String)
    ensures
        r@ == dec_digits(n as nat),
{
    n.to_string()
}

/// The comma-joined decimal id list, in the order given.
pub open spec fn joined_ids(ids: Seq<u32>) -> Seq<char>
    decreases ids.len(),
{
    if ids.len() == 0 {
        Seq::<char>::empty()
    } else if ids.len() == 1 {
        dec_digits(ids[0] as nat)
    } else {
        joined_ids(ids.drop_last()) + ","@ + dec_digits(ids.last() as nat)
    }
}

/// The headline ids, in headline order.
pub open spec fn headline_ids(hs: Seq<HeadlineV>) -> Seq<u32> {
    hs.map_values(|h: HeadlineV| h.id)
}

/// Builds the comma-joined id list of a feed's headlines, preserving
/// the headlines' own order, exactly as `joined_ids` describes.
pub fn ids_string(hls: &Vec<Headline>) -> (r: String)
    ensures
        r@ == joined_ids(headline_ids(hls.deep_view())),
{
    let ghost ids = headline_ids(hls.deep_view());
    let mut s = String::new();
    let mut i: usize = 0;
    while i < hls.len()
        invariant
            i <= hls.len(),
            ids == headline_ids(hls.deep_view()),
            ids.len() == hls.len(),
            forall|k: int| 0 <= k < ids.len() ==> ids[k] == hls.deep_view()[k].id,
            s@ == joined_ids(ids.take(i as int)),
        decreases hls.len() - i,
    {
        proof {
            assert(ids.take(i as int + 1).drop_last() =~= ids.take(i as int));
            assert(ids.take(i as int + 1).last() == ids[i as int]);
        }
        if i > 0 {
            s.append(",");
        }
        let d = u32_decimal(hls[i].id);
        s.append(d.as_str());
        proof {
            if i == 0 {
                assert(s@ =~= joined_ids(ids.take(1)));
            } else {
                assert(ids.take(i as int + 1).len() >= 2);
                assert(s@ =~= joined_ids(ids.take(i as int)) + ","@ + dec_digits(
                    ids[i as int] as nat,
                ));
            }
        }
        i = i + 1;
    }
    proof {
        assert(ids.take(hls.len() as int) =~= ids);
    }
    s
}

/// The batched article operation for a feed's headlines, or none at
/// all when the feed returned no headlines: no article call is issued
/// with an empty id list, and an empty feed yields no units.
pub fn article_op_for(hls: &Vec<Headline>) -> (r: Option<TtrssOperation>)
    ensures
        r is Some <==> hls@.len() > 0,
        r matches Some(op) ==> op@ == OpV::GetArticle(joined_ids(headline_ids(hls.deep_view()))),
{
    if hls.len() == 0 {
        None
    } else {
        Some(TtrssOperation::GetArticle(ids_string(hls)))
    }
}

/// The phase of a run in which an error arose. A configuration or
/// login failure is unrecoverable for the whole run; a failure while
/// fetching one feed is recoverable at feed granularity, and the run
/// continues with the next feed.
pub enum SyncPhase {
    ConfigLoad,
    Login,
    FeedSync,
}

/// Whether an error in the phase aborts the whole run.
pub fn phase_is_fatal(p: &SyncPhase) -> (r: bool)
    ensures
        r == !(p is FeedSync),
{
    match p {
        SyncPhase::FeedSync => false,
        _ => true,
    }
}

/// The mail conversion boundary: consumes a feed descriptor together
/// with its ordered correlated units, one message per unit, under the
/// configured output root. The on-disk format is outside this
/// library's scope, and this implementation records nothing.
pub fn write_maildir(config: &Config, feed: &Feed, items: Vec<CorrelatedUnit>) {
}

} // verus!
