//! Matching items against search terms, and ranking them by score.

use crate::text::{
    contains, find_last, last_index_is_last_occurrence, last_index_of, lowercase, occurs,
    str_views, to_lowercase, utf8,
};
use vstd::prelude::*;

verus! {

/// A fraction `num / den`, the mathematical value of a score.
pub struct Ratio {
    pub num: int,
    pub den: int,
}

impl Ratio {
    /// Whether this is a fraction that is not negative.
    pub open spec fn is_valid(self) -> bool {
        self.num >= 0 && self.den > 0
    }

    /// Whether this fraction is greater than zero, given that it is valid.
    pub open spec fn is_positive(self) -> bool {
        self.num > 0
    }

    /// Whether this fraction is less than `other`, given that both are valid.
    pub open spec fn less_than(self, other: Ratio) -> bool {
        self.num * other.den < other.num * self.den
    }

    /// Whether this fraction has the same value as `other`, given that both are valid.
    pub open spec fn same_as(self, other: Ratio) -> bool {
        self.num * other.den == other.num * self.den
    }
}

/// How well an item matches a list of terms: a whole part and a proper fraction.
///
/// A score of zero denotes that the item does not match; the higher the score, the
/// better the match.
#[derive(Clone, Copy, Debug)]
pub struct Score {
    whole: u128,
    num: u64,
    den: u64,
}

impl View for Score {
    type V = Ratio;

    closed spec fn view(&self) -> Ratio {
        Ratio { num: self.whole * self.den + self.num, den: self.den as int }
    }
}

impl Score {
    #[verifier::type_invariant]
    spec fn fraction_is_proper(self) -> bool {
        self.num < self.den
    }

    /// The score `whole + num / den`.
    pub fn new(whole: u128, num: u64, den: u64) -> (score: Score)
        requires
            num < den,
        ensures
            score@ == (Ratio { num: whole * den + num, den: den as int }),
            score@.is_valid(),
    {
        assert(whole * den >= 0) by (nonlinear_arith)
            requires
                whole >= 0,
                den >= 0,
        ;
        Score { whole, num, den }
    }

    /// The score zero.
    pub fn zero() -> (score: Score)
        ensures
            score@ == (Ratio { num: 0, den: 1 }),
    {
        assert(0 * 1 + 0 == 0);
        Score { whole: 0, num: 0, den: 1 }
    }

    /// The whole part of this score.
    pub fn whole(&self) -> (whole: u128)
        ensures
            self@.den > 0,
            whole == self@.num / self@.den,
    {
        proof {
            use_type_invariant(self);
            assert((self.whole * self.den + self.num) / (self.den as int) == self.whole)
                by (nonlinear_arith)
                requires
                    0 <= self.num < self.den,
            ;
        }
        self.whole
    }

    /// The numerator of the fraction of this score.
    pub fn numerator(&self) -> (num: u64)
        ensures
            self@.den > 0,
            num == self@.num % self@.den,
    {
        proof {
            use_type_invariant(self);
            assert((self.whole * self.den + self.num) % (self.den as int) == self.num)
                by (nonlinear_arith)
                requires
                    0 <= self.num < self.den,
            ;
        }
        self.num
    }

    /// The denominator of the fraction of this score.
    pub fn denominator(&self) -> (den: u64)
        ensures
            den == self@.den,
            self@.is_valid(),
    {
        proof {
            use_type_invariant(self);
            assert(self.whole * self.den >= 0) by (nonlinear_arith)
                requires
                    self.whole >= 0,
                    self.den >= 0,
            ;
        }
        self.den
    }

    /// Whether this score denotes a match, that is, whether it is greater than zero.
    pub fn is_match(&self) -> (matched: bool)
        ensures
            matched == self@.is_positive(),
            self@.is_valid(),
    {
        proof {
            use_type_invariant(self);
            assert(self.whole > 0 ==> self.whole * self.den > 0) by (nonlinear_arith)
                requires
                    self.den > 0,
            ;
            assert(self.whole == 0 ==> self.whole * self.den == 0) by (nonlinear_arith);
        }
        self.whole > 0 || self.num > 0
    }

    /// Whether this score is less than `other`.
    pub fn less_than(&self, other: &Score) -> (less: bool)
        ensures
            less == self@.less_than(other@),
            self@.is_valid(),
            other@.is_valid(),
    {
        proof {
            use_type_invariant(self);
            use_type_invariant(other);
            lemma_less_than_by_parts(
                self.whole as int,
                self.num as int,
                self.den as int,
                other.whole as int,
                other.num as int,
                other.den as int,
            );
            assert(self.num * other.den <= 0xffff_ffff_ffff_ffff * 0xffff_ffff_ffff_ffff)
                by (nonlinear_arith)
                requires
                    0 <= self.num <= 0xffff_ffff_ffff_ffff,
                    0 <= other.den <= 0xffff_ffff_ffff_ffff,
            ;
            assert(other.num * self.den <= 0xffff_ffff_ffff_ffff * 0xffff_ffff_ffff_ffff)
                by (nonlinear_arith)
                requires
                    0 <= other.num <= 0xffff_ffff_ffff_ffff,
                    0 <= self.den <= 0xffff_ffff_ffff_ffff,
            ;
        }
        if self.whole != other.whole {
            self.whole < other.whole
        } else {
            let left: u128 = (self.num as u128) * (other.den as u128);
            let right: u128 = (other.num as u128) * (self.den as u128);
            left < right
        }
    }
}

/// Comparing two scores by their whole parts first, and by their fractions where
/// the whole parts are equal, compares their values.
proof fn lemma_less_than_by_parts(wa: int, na: int, da: int, wb: int, nb: int, db: int)
    requires
        0 <= wa,
        0 <= wb,
        0 <= na < da,
        0 <= nb < db,
    ensures
        wa * da + na >= 0,
        wb * db + nb >= 0,
        ((wa * da + na) * db < (wb * db + nb) * da) <==> (wa < wb || (wa == wb && na * db < nb
            * da)),
{
    assert(wa * da >= 0 && wb * db >= 0) by (nonlinear_arith)
        requires
            0 <= wa,
            0 <= wb,
            0 < da,
            0 < db,
    ;
    assert((wa * da + na) * db == wa * (da * db) + na * db) by (nonlinear_arith);
    assert((wb * db + nb) * da == wb * (da * db) + nb * da) by (nonlinear_arith);
    assert(0 <= na * db < da * db) by (nonlinear_arith)
        requires
            0 <= na < da,
            0 < db,
    ;
    assert(0 <= nb * da < da * db) by (nonlinear_arith)
        requires
            0 <= nb < db,
            0 < da,
    ;
    let unit = da * db;
    if wa < wb {
        assert(wa * unit + unit <= wb * unit) by (nonlinear_arith)
            requires
                wa + 1 <= wb,
                unit > 0,
        ;
    } else if wa > wb {
        assert(wb * unit + unit <= wa * unit) by (nonlinear_arith)
            requires
                wb + 1 <= wa,
                unit > 0,
        ;
    }
}

/// Whether every one of `needles` stands in `hay`.
pub open spec fn all_occur(hay: Seq<u8>, needles: Seq<Seq<u8>>) -> bool {
    forall|i: int| 0 <= i < needles.len() ==> occurs(hay, #[trigger] needles[i])
}

/// What the name of an item adds to its score: 10 for each term if every term
/// stands in the name, and nothing otherwise.
pub open spec fn name_points(name: Seq<u8>, terms: Seq<Seq<u8>>) -> int {
    if all_occur(name, terms) {
        10 * (terms.len() as int)
    } else {
        0
    }
}

/// The index in `hay` at which `needle` stands for the last time, or zero if it does not.
pub open spec fn last_offset(hay: Seq<u8>, needle: Seq<u8>) -> int {
    match last_index_of(hay, needle) {
        Some(at) => at,
        None => 0,
    }
}

/// The sum over `needles` of the index in `hay` at which each stands for the last time.
pub open spec fn offset_sum(hay: Seq<u8>, needles: Seq<Seq<u8>>) -> int
    decreases needles.len(),
{
    if needles.len() == 0 {
        0
    } else {
        offset_sum(hay, needles.drop_last()) + last_offset(hay, needles.last())
    }
}

/// What the target of an item adds to its score, as a multiple of the reciprocal of
/// the target's length: for each term the index of its last occurrence if every
/// term stands in the target, and nothing otherwise.
pub open spec fn target_offsets(target: Seq<u8>, terms: Seq<Seq<u8>>) -> int {
    if all_occur(target, terms) {
        offset_sum(target, terms)
    } else {
        0
    }
}

/// The length that the offsets into a target are divided by: the length of the
/// target in bytes, or one for the empty target, whose offsets are all zero.
pub open spec fn target_length(target: Seq<u8>) -> int {
    if target.len() == 0 {
        1
    } else {
        target.len() as int
    }
}

/// The score of an item with the given name and target against `terms`, all of them
/// in lower case and given by their bytes:
/// `name_points + target_offsets / target_length`.
pub open spec fn score_of_bytes(name: Seq<u8>, target: Seq<u8>, terms: Seq<Seq<u8>>) -> Ratio {
    Ratio {
        num: name_points(name, terms) * target_length(target) + target_offsets(target, terms),
        den: target_length(target),
    }
}

/// The bytes that a text is matched by: the UTF-8 encoding of its lower-case form.
pub open spec fn lower_bytes(text: Seq<char>) -> Seq<u8> {
    utf8(lowercase(text))
}

/// The bytes that each of the given terms is matched by.
pub open spec fn lowered(terms: Seq<Seq<char>>) -> Seq<Seq<u8>> {
    terms.map_values(|term: Seq<char>| lower_bytes(term))
}

/// The score of an item with the given name and target against `terms`: the score
/// of their lower-case forms.
pub open spec fn score_of(name: Seq<char>, target: Seq<char>, terms: Seq<Seq<char>>) -> Ratio {
    score_of_bytes(lower_bytes(name), lower_bytes(target), lowered(terms))
}

/// What a sequence of byte strings holds.
pub open spec fn byte_views(texts: Seq<Vec<u8>>) -> Seq<Seq<u8>> {
    texts.map_values(|text: Vec<u8>| text@)
}

/// No offset is negative, and none lies behind the end of the text.
pub proof fn offset_sum_is_bounded(hay: Seq<u8>, needles: Seq<Seq<u8>>)
    ensures
        0 <= offset_sum(hay, needles) <= needles.len() * hay.len(),
    decreases needles.len(),
{
    if needles.len() > 0 {
        offset_sum_is_bounded(hay, needles.drop_last());
        let len = hay.len() as int;
        let count = needles.len() as int;
        assert((count - 1) * len + len == count * len) by (nonlinear_arith);
        last_index_is_last_occurrence(hay, needles.last());
    }
}

proof fn all_occur_step(hay: Seq<u8>, needles: Seq<Seq<u8>>)
    requires
        needles.len() > 0,
    ensures
        all_occur(hay, needles) == (all_occur(hay, needles.drop_last()) && occurs(
            hay,
            needles.last(),
        )),
{
    let earlier = needles.drop_last();
    if all_occur(hay, needles) {
        assert forall|j: int| 0 <= j < earlier.len() implies occurs(hay, #[trigger] earlier[j]) by {
            assert(needles[j] == earlier[j]);
        }
        assert(needles[needles.len() - 1] == needles.last());
    }
    if all_occur(hay, earlier) && occurs(hay, needles.last()) {
        assert forall|j: int| 0 <= j < needles.len() implies occurs(hay, #[trigger] needles[j]) by {
            if j < earlier.len() {
                assert(needles[j] == earlier[j]);
            }
        }
    }
}

/// Score an item with the given name and target against `terms`, all of them in
/// lower case and given by their bytes.
///
/// If every term stands in the name, each term adds 10 to the score.  If every term
/// stands in the target, each term adds the position of its last occurrence
/// relative to the length of the target: the farther to the right a term matches,
/// the more specific it is taken to be.
pub fn score_bytes(name: &[u8], target: &[u8], terms: &Vec<Vec<u8>>) -> (score: Score)
    ensures
        score@ == score_of_bytes(name@, target@, byte_views(terms@)),
{
    let target_len = target.len();
    let ghost needles = byte_views(terms@);
    let mut in_name = true;
    let mut in_target = true;
    let mut offsets: u128 = 0;
    let mut i: usize = 0;
    while i < terms.len()
        invariant
            i <= terms.len(),
            needles == byte_views(terms@),
            target_len == target@.len(),
            in_name == all_occur(name@, needles.take(i as int)),
            in_target == all_occur(target@, needles.take(i as int)),
            offsets == offset_sum(target@, needles.take(i as int)),
            offsets <= i * target@.len(),
        decreases terms.len() - i,
    {
        let term = terms[i].as_slice();
        proof {
            let next = needles.take(i + 1);
            assert(next.drop_last() =~= needles.take(i as int));
            assert(next.last() == term@);
            offset_sum_is_bounded(target@, next);
            all_occur_step(name@, next);
            all_occur_step(target@, next);
            assert(i * target@.len() <= usize::MAX * usize::MAX) by (nonlinear_arith)
                requires
                    0 <= i <= usize::MAX,
                    0 <= target@.len() <= usize::MAX,
            ;
            assert((i + 1) * target@.len() == i * target@.len() + target@.len())
                by (nonlinear_arith);
        }
        if !contains(name, term) {
            in_name = false;
        }
        match find_last(target, term) {
            Some(at) => {
                offsets = offsets + at as u128;
            },
            None => {
                in_target = false;
            },
        }
        i += 1;
    }
    proof {
        assert(needles.take(i as int) =~= needles);
        assert(terms.len() * 10 <= usize::MAX * 10) by (nonlinear_arith)
            requires
                terms.len() <= usize::MAX,
        ;
    }
    let points: u128 = if in_name {
        10 * (terms.len() as u128)
    } else {
        0
    };
    let total: u128 = if in_target {
        offsets
    } else {
        0
    };
    let length: u64 = if target_len == 0 {
        1
    } else {
        target_len as u64
    };
    proof {
        assert(total / (length as u128) <= terms.len()) by (nonlinear_arith)
            requires
                0 <= total <= terms.len() * target_len,
                length > 0,
                target_len == 0 || target_len == length,
        ;
    }
    let whole: u128 = points + total / (length as u128);
    let num: u64 = (total % (length as u128)) as u64;
    proof {
        vstd::arithmetic::div_mod::lemma_fundamental_div_mod(total as int, length as int);
        assert(whole * length + num == points * length + total) by (nonlinear_arith)
            requires
                whole == points + total / (length as u128),
                total == length * (total / (length as u128)) + num,
        ;
    }
    Score::new(whole, num, length)
}

/// Score an item with the given name and target against `terms`.
///
/// All text is compared in lower case, and by its bytes.
pub fn score_text(name: &str, target: &str, terms: &[&str]) -> (score: Score)
    ensures
        score@ == score_of(name@, target@, str_views(terms@)),
{
    let lower_name = to_lowercase(name);
    let lower_target = to_lowercase(target);
    let mut lower_terms: Vec<Vec<u8>> = Vec::new();
    let mut i: usize = 0;
    while i < terms.len()
        invariant
            i <= terms.len(),
            lower_terms@.len() == i,
            forall|j: int| 0 <= j < i ==> (#[trigger] lower_terms@[j])@ == lower_bytes(terms@[j]@),
        decreases terms.len() - i,
    {
        let lower_term = to_lowercase(terms[i]);
        lower_terms.push(lower_term.as_str().as_bytes_vec());
        i += 1;
    }
    assert(byte_views(lower_terms@) =~= lowered(str_views(terms@)));
    score_bytes(lower_name.as_str().as_bytes(), lower_target.as_str().as_bytes(), &lower_terms)
}

/// Match against a list of terms and return a score.
pub trait ScoreMatchable {
    /// The score of `self` against `terms`.
    spec fn score(&self, terms: Seq<Seq<char>>) -> Ratio;

    /// Match self against `terms` and return a score about how well self matches `terms`.
    ///
    /// A score of zero denotes that `self` doesn't match `terms`; a score greater than
    /// zero indicates a match.  The higher the score the better self matches `terms`.
    fn match_score(&self, terms: &[&str]) -> (score: Score)
        ensures
            score@ == self.score(str_views(terms@)),
    ;
}

impl<'a, T: ScoreMatchable> ScoreMatchable for &'a T {
    open spec fn score(&self, terms: Seq<Seq<char>>) -> Ratio {
        (**self).score(terms)
    }

    fn match_score(&self, terms: &[&str]) -> (score: Score) {
        (*self).match_score(terms)
    }
}

/// `a <= b` and `b < c` give `a < c`.
pub proof fn less_than_extends_down(a: Ratio, b: Ratio, c: Ratio)
    requires
        a.is_valid(),
        b.is_valid(),
        c.is_valid(),
        !b.less_than(a),
        b.less_than(c),
    ensures
        a.less_than(c),
{
    assert(a.num * b.den * c.den <= b.num * a.den * c.den) by (nonlinear_arith)
        requires
            a.num * b.den <= b.num * a.den,
            c.den > 0,
    ;
    assert(b.num * c.den * a.den < c.num * b.den * a.den) by (nonlinear_arith)
        requires
            b.num * c.den < c.num * b.den,
            a.den > 0,
    ;
    assert(b.num * a.den * c.den == b.num * c.den * a.den) by (nonlinear_arith);
    assert(a.num * b.den * c.den == a.num * c.den * b.den) by (nonlinear_arith);
    assert(c.num * b.den * a.den == c.num * a.den * b.den) by (nonlinear_arith);
    assert(a.num * c.den < c.num * a.den) by (nonlinear_arith)
        requires
            a.num * c.den * b.den < c.num * a.den * b.den,
            b.den > 0,
    ;
}

/// The scores of `items` against `terms`, item by item.
pub open spec fn item_scores<K, M: ScoreMatchable>(
    items: Seq<(K, M)>,
    terms: Seq<Seq<char>>,
) -> Seq<Ratio> {
    items.map_values(|entry: (K, M)| entry.1.score(terms))
}

/// Whether the item at index `i` ranks before the item at index `j`: its score is
/// higher, or the scores are the same and it comes first.
pub open spec fn ranks_before(scores: Seq<Ratio>, i: int, j: int) -> bool {
    scores[j].less_than(scores[i]) || (scores[i].same_as(scores[j]) && i < j)
}

/// Whether `order` ranks the items with the given scores: it lists the index of
/// every item with a score above zero and of no other, each before all those that
/// it ranks before.
pub open spec fn is_ranking(scores: Seq<Ratio>, order: Seq<int>) -> bool {
    &&& forall|p: int|
        0 <= p < order.len() ==> 0 <= #[trigger] order[p] < scores.len()
            && scores[order[p]].is_positive()
    &&& forall|i: int|
        0 <= i < scores.len() && (#[trigger] scores[i]).is_positive() ==> order.contains(i)
    &&& forall|p: int, q: int|
        0 <= p < q < order.len() ==> ranks_before(scores, #[trigger] order[p], #[trigger] order[q])
}

/// The IDs of the items at the indices that `order` lists.
pub open spec fn selected<K, M>(items: Seq<(K, M)>, order: Seq<int>) -> Seq<K> {
    order.map_values(|i: int| items[i].0)
}

/// Whether `ids` are the IDs of the items that match `terms`, in the order of their rank.
pub open spec fn is_ranked_selection<K, M: ScoreMatchable>(
    items: Seq<(K, M)>,
    terms: Seq<Seq<char>>,
    ids: Seq<K>,
) -> bool {
    exists|order: Seq<int>|
        is_ranking(item_scores(items, terms), order) && ids == selected(items, order)
}

fn reversed<T>(items: Vec<T>) -> (turned: Vec<T>)
    ensures
        turned@.len() == items@.len(),
        forall|j: int| 0 <= j < turned@.len() ==> turned@[j] == items@[items@.len() - 1 - j],
{
    let mut source = items;
    let mut turned: Vec<T> = Vec::new();
    while source.len() > 0
        invariant
            source@.len() + turned@.len() == items@.len(),
            forall|j: int| 0 <= j < source@.len() ==> source@[j] == items@[j],
            forall|j: int| 0 <= j < turned@.len() ==> turned@[j] == items@[items@.len() - 1 - j],
        decreases source@.len(),
    {
        let last = source.pop().unwrap();
        turned.push(last);
    }
    turned
}

fn ids_of<K>(matches: Vec<(Score, K)>) -> (ids: Vec<K>)
    ensures
        ids@.len() == matches@.len(),
        forall|j: int| 0 <= j < ids@.len() ==> ids@[j] == matches@[j].1,
{
    let mut source = matches;
    let mut turned: Vec<K> = Vec::new();
    while source.len() > 0
        invariant
            source@.len() + turned@.len() == matches@.len(),
            forall|j: int| 0 <= j < source@.len() ==> source@[j] == matches@[j],
            forall|j: int|
                0 <= j < turned@.len() ==> turned@[j] == matches@[matches@.len() - 1 - j].1,
        decreases source@.len(),
    {
        let (_, id) = source.pop().unwrap();
        turned.push(id);
    }
    reversed(turned)
}

/// Find all items from `items` which match the given `terms`.
///
/// `items` holds pairs of an ID and an item.  Each item is scored against `terms`;
/// items with a score of zero are left out, and the IDs of the others are returned
/// by score in descending order.  Items with the same score stay in the order in
/// which `items` holds them.
pub fn find_matching_items<K, M: ScoreMatchable>(items: Vec<(K, M)>, terms: &[&str]) -> (ids: Vec<K>)
    ensures
        is_ranked_selection(items@, str_views(terms@), ids@),
{
    let ghost scores = item_scores(items@, str_views(terms@));
    let mut rest = reversed(items);
    let mut matches: Vec<(Score, K)> = Vec::new();
    let ghost mut order: Seq<int> = Seq::empty();
    while rest.len() > 0
        invariant
            scores == item_scores(items@, str_views(terms@)),
            rest@.len() <= items@.len(),
            forall|j: int| 0 <= j < rest@.len() ==> rest@[j] == items@[items@.len() - 1 - j],
            matches@.len() == order.len(),
            is_ranking(scores.take(items@.len() - rest@.len()), order),
            forall|p: int|
                0 <= p < order.len() ==> (#[trigger] matches@[p]).0@ == scores[order[p]]
                    && matches@[p].1 == items@[order[p]].0 && matches@[p].0@.is_valid(),
        decreases rest@.len(),
    {
        let ghost index = items@.len() - rest@.len();
        let ghost before = scores.take(index);
        let ghost after = scores.take(index + 1);
        let (id, item) = rest.pop().unwrap();
        let score = item.match_score(terms);
        assert(score@ == scores[index]);
        assert(forall|i: int| 0 <= i < index ==> after[i] == before[i]);
        if score.is_match() {
            let mut position: usize = 0;
            while position < matches.len()
                invariant
                    position <= matches@.len(),
                    matches@.len() == order.len(),
                    score@.is_valid(),
                    forall|p: int|
                        0 <= p < order.len() ==> 0 <= order[p] < scores.len() && (
                        #[trigger] matches@[p]).0@ == scores[order[p]] && matches@[p].0@.is_valid(),
                    forall|p: int|
                        0 <= p < position ==> !(#[trigger] matches@[p]).0@.less_than(score@),
                ensures
                    position < matches@.len() ==> matches@[position as int].0@.less_than(score@),
                decreases matches@.len() - position,
            {
                if matches[position].0.less_than(&score) {
                    break ;
                }
                position += 1;
            }
            let ghost longer = order.insert(position as int, index);
            proof {
                assert forall|p: int, q: int| 0 <= p < q < longer.len() implies ranks_before(
                    after,
                    #[trigger] longer[p],
                    #[trigger] longer[q],
                ) by {
                    if q < position {
                        assert(longer[p] == order[p] && longer[q] == order[q]);
                        assert(ranks_before(before, order[p], order[q]));
                    } else if q == position {
                        assert(longer[p] == order[p]);
                        assert(!matches@[p].0@.less_than(score@));
                        assert(order[p] < index);
                    } else if p < position {
                        assert(longer[p] == order[p] && longer[q] == order[q - 1]);
                        assert(ranks_before(before, order[p], order[q - 1]));
                    } else if p == position {
                        assert(longer[q] == order[q - 1]);
                        assert(matches@[position as int].0@.less_than(score@));
                        if q - 1 > position {
                            assert(ranks_before(before, order[position as int], order[q - 1]));
                            assert(matches@[q - 1].0@ == scores[order[q - 1]]);
                            less_than_extends_down(
                                scores[order[q - 1]],
                                scores[order[position as int]],
                                score@,
                            );
                        }
                    } else {
                        assert(longer[p] == order[p - 1] && longer[q] == order[q - 1]);
                        assert(ranks_before(before, order[p - 1], order[q - 1]));
                    }
                }
                assert forall|i: int| 0 <= i < after.len() && (#[trigger] after[i]).is_positive()
                    implies longer.contains(i) by {
                    if i == index {
                        assert(longer[position as int] == i);
                    } else {
                        assert(before[i].is_positive());
                        let p = choose|p: int| 0 <= p < order.len() && order[p] == i;
                        if p < position {
                            assert(longer[p] == i);
                        } else {
                            assert(longer[p + 1] == i);
                        }
                    }
                }
                assert forall|p: int| 0 <= p < longer.len() implies 0 <= #[trigger] longer[p]
                    < after.len() && after[longer[p]].is_positive() by {
                    if p < position {
                        assert(longer[p] == order[p]);
                    } else if p > position {
                        assert(longer[p] == order[p - 1]);
                    }
                }
            }
            matches.insert(position, (score, id));
            proof {
                order = longer;
                assert forall|p: int| 0 <= p < order.len() implies (#[trigger] matches@[p]).0@
                    == scores[order[p]] && matches@[p].1 == items@[order[p]].0
                    && matches@[p].0@.is_valid() by {
                }
            }
        } else {
            proof {
                assert forall|i: int| 0 <= i < after.len() && (#[trigger] after[i]).is_positive()
                    implies order.contains(i) by {
                    assert(before[i].is_positive());
                }
                assert forall|p: int, q: int| 0 <= p < q < order.len() implies ranks_before(
                    after,
                    #[trigger] order[p],
                    #[trigger] order[q],
                ) by {
                    assert(ranks_before(before, order[p], order[q]));
                }
            }
        }
    }
    assert(scores.take(items@.len() as int) =~= scores);
    let ids = ids_of(matches);
    assert(ids@ =~= selected(items@, order));
    ids
}

/// Where every term stands in the name of an item, terms and name taken in lower
/// case, the name adds exactly ten times the number of terms to the score.
pub proof fn name_points_of_full_match(name: Seq<char>, terms: Seq<Seq<char>>)
    requires
        forall|i: int|
            0 <= i < terms.len() ==> occurs(lower_bytes(name), lower_bytes(#[trigger] terms[i])),
    ensures
        name_points(lower_bytes(name), lowered(terms)) == 10 * terms.len(),
{
    assert forall|i: int| 0 <= i < lowered(terms).len() implies occurs(
        lower_bytes(name),
        #[trigger] lowered(terms)[i],
    ) by {
        assert(lowered(terms)[i] == lower_bytes(terms[i]));
    }
}

/// Where every term is in lower case and stands in the lower-cased name of an item,
/// the name adds exactly ten times the number of terms to the score.
pub proof fn name_points_of_lower_case_match(name: Seq<char>, terms: Seq<Seq<char>>)
    requires
        forall|i: int|
            0 <= i < terms.len() ==> lowercase(#[trigger] terms[i]) == terms[i] && occurs(
                lower_bytes(name),
                utf8(terms[i]),
            ),
    ensures
        name_points(lower_bytes(name), lowered(terms)) == 10 * terms.len(),
{
    assert forall|i: int| 0 <= i < terms.len() implies occurs(
        lower_bytes(name),
        lower_bytes(#[trigger] terms[i]),
    ) by {
        assert(lowercase(terms[i]) == terms[i]);
    }
    name_points_of_full_match(name, terms);
}

/// Where one of the terms stands neither in the name nor in the target of an item,
/// the score of the item is zero.
pub proof fn absent_term_scores_zero(
    name: Seq<char>,
    target: Seq<char>,
    terms: Seq<Seq<char>>,
    absent: int,
)
    requires
        0 <= absent < terms.len(),
        !occurs(lower_bytes(name), lower_bytes(terms[absent])),
        !occurs(lower_bytes(target), lower_bytes(terms[absent])),
    ensures
        score_of(name, target, terms).num == 0,
        !score_of(name, target, terms).is_positive(),
{
    assert(lowered(terms)[absent] == lower_bytes(terms[absent]));
    assert(!all_occur(lower_bytes(name), lowered(terms)));
    assert(!all_occur(lower_bytes(target), lowered(terms)));
    assert(0 * target_length(lower_bytes(target)) == 0);
}

/// An item with a score of zero is not ranked: no selection returns it.
pub proof fn zero_score_is_not_ranked(scores: Seq<Ratio>, order: Seq<int>, index: int)
    requires
        is_ranking(scores, order),
        0 <= index < scores.len(),
        !scores[index].is_positive(),
    ensures
        !order.contains(index),
{
}

/// In a ranking the item with the higher score comes first, wherever the two items
/// stand in the collection.
pub proof fn higher_score_ranks_first(scores: Seq<Ratio>, order: Seq<int>, p: int, q: int)
    requires
        is_ranking(scores, order),
        0 <= p < order.len(),
        0 <= q < order.len(),
        scores[order[q]].less_than(scores[order[p]]),
    ensures
        p < q,
{
    if q < p {
        assert(ranks_before(scores, order[q], order[p]));
    }
}

/// A ranking lists no item twice.
pub proof fn ranking_has_no_duplicates(scores: Seq<Ratio>, order: Seq<int>, p: int, q: int)
    requires
        is_ranking(scores, order),
        0 <= p < order.len(),
        0 <= q < order.len(),
        order[p] == order[q],
    ensures
        p == q,
{
    if p < q {
        assert(ranks_before(scores, order[p], order[q]));
    } else if q < p {
        assert(ranks_before(scores, order[q], order[p]));
    }
}

proof fn selection_carries_over<K, M: ScoreMatchable>(
    first: Seq<(K, M)>,
    second: Seq<(K, M)>,
    terms: Seq<Seq<char>>,
    first_order: Seq<int>,
    second_order: Seq<int>,
    id: K,
)
    requires
        first.to_multiset() == second.to_multiset(),
        is_ranking(item_scores(first, terms), first_order),
        is_ranking(item_scores(second, terms), second_order),
        selected(first, first_order).contains(id),
    ensures
        selected(second, second_order).contains(id),
{
    let p = choose|p: int|
        0 <= p < selected(first, first_order).len() && selected(first, first_order)[p] == id;
    let entry = first[first_order[p]];
    assert(item_scores(first, terms)[first_order[p]] == entry.1.score(terms));
    first.to_multiset_ensures();
    second.to_multiset_ensures();
    assert(first.contains(entry));
    assert(first.to_multiset().count(entry) > 0);
    assert(second.to_multiset().count(entry) > 0);
    assert(second.contains(entry));
    let j = choose|j: int| 0 <= j < second.len() && second[j] == entry;
    assert(item_scores(second, terms)[j] == entry.1.score(terms));
    assert(second_order.contains(j));
    let q = choose|q: int| 0 <= q < second_order.len() && second_order[q] == j;
    assert(selected(second, second_order)[q] == id);
}

/// Ranking is stable under the order of the input: where one collection holds the
/// items of another in another order, the same set of IDs is selected from both, and
/// two items change places in the ranking only if their scores are the same.
pub proof fn ranking_ignores_input_order<K, M: ScoreMatchable>(
    first: Seq<(K, M)>,
    second: Seq<(K, M)>,
    terms: Seq<Seq<char>>,
    first_order: Seq<int>,
    second_order: Seq<int>,
)
    requires
        first.to_multiset() == second.to_multiset(),
        is_ranking(item_scores(first, terms), first_order),
        is_ranking(item_scores(second, terms), second_order),
    ensures
        selected(first, first_order).to_set() == selected(second, second_order).to_set(),
        forall|p: int, q: int, r: int, s: int|
            0 <= p < q < first_order.len() && 0 <= r < s < second_order.len() && first[
                #[trigger] first_order[p]] == second[#[trigger] second_order[s]] && first[
                #[trigger] first_order[q]] == second[#[trigger] second_order[r]] ==> first[
                first_order[p]].1.score(terms).same_as(first[first_order[q]].1.score(terms)),
{
    assert forall|p: int, q: int, r: int, s: int|
        0 <= p < q < first_order.len() && 0 <= r < s < second_order.len() && first[
            #[trigger] first_order[p]] == second[#[trigger] second_order[s]] && first[
            #[trigger] first_order[q]] == second[#[trigger] second_order[r]] implies first[
        first_order[p]].1.score(terms).same_as(first[first_order[q]].1.score(terms)) by {
        assert(ranks_before(item_scores(first, terms), first_order[p], first_order[q]));
        assert(ranks_before(item_scores(second, terms), second_order[r], second_order[s]));
    }
    assert forall|id: K|
        selected(first, first_order).contains(id) == selected(second, second_order).contains(
            id,
        ) by {
        if selected(first, first_order).contains(id) {
            selection_carries_over(first, second, terms, first_order, second_order, id);
        }
        if selected(second, second_order).contains(id) {
            selection_carries_over(second, first, terms, second_order, first_order, id);
        }
    }
    assert(selected(first, first_order).to_set() =~= selected(second, second_order).to_set());
}

proof fn rankings_agree_up_to(scores: Seq<Ratio>, first: Seq<int>, second: Seq<int>, upto: int)
    requires
        is_ranking(scores, first),
        is_ranking(scores, second),
        0 <= upto <= first.len(),
        upto <= second.len(),
    ensures
        forall|p: int| 0 <= p < upto ==> first[p] == second[p],
    decreases upto,
{
    if upto > 0 {
        rankings_agree_up_to(scores, first, second, upto - 1);
        let p = upto - 1;
        if first[p] != second[p] {
            assert(scores[first[p]].is_positive());
            assert(second.contains(first[p]));
            let q = choose|q: int| 0 <= q < second.len() && second[q] == first[p];
            assert(scores[second[p]].is_positive());
            assert(first.contains(second[p]));
            let r = choose|r: int| 0 <= r < first.len() && first[r] == second[p];
            if q < p {
                ranking_has_no_duplicates(scores, first, q, p);
            }
            if r < p {
                ranking_has_no_duplicates(scores, second, r, p);
            }
            assert(ranks_before(scores, second[p], second[q]));
            assert(ranks_before(scores, first[p], first[r]));
        }
    }
}

/// The items and the terms decide the ranking: there is but one.
pub proof fn ranking_is_unique(scores: Seq<Ratio>, first: Seq<int>, second: Seq<int>)
    requires
        is_ranking(scores, first),
        is_ranking(scores, second),
    ensures
        first == second,
{
    assert forall|i: int, j: int|
        0 <= i < first.len() && 0 <= j < first.len() && i != j implies first[i] != first[j] by {
        if first[i] == first[j] {
            ranking_has_no_duplicates(scores, first, i, j);
        }
    }
    assert forall|i: int, j: int|
        0 <= i < second.len() && 0 <= j < second.len() && i != j implies second[i]
        != second[j] by {
        if second[i] == second[j] {
            ranking_has_no_duplicates(scores, second, i, j);
        }
    }
    assert forall|index: int| first.to_set().contains(index) == second.to_set().contains(
        index,
    ) by {
        if first.contains(index) {
            let p = choose|p: int| 0 <= p < first.len() && first[p] == index;
            assert(scores[first[p]].is_positive());
            assert(second.contains(index));
        }
        if second.contains(index) {
            let p = choose|p: int| 0 <= p < second.len() && second[p] == index;
            assert(scores[second[p]].is_positive());
            assert(first.contains(index));
        }
    }
    assert(first.to_set() =~= second.to_set());
    first.unique_seq_to_set();
    second.unique_seq_to_set();
    rankings_agree_up_to(scores, first, second, first.len() as int);
    assert(first =~= second);
}

/// The items and the terms decide the selection: whatever is selected from the same
/// items for the same terms is the same.
pub proof fn selection_is_unique<K, M: ScoreMatchable>(
    items: Seq<(K, M)>,
    terms: Seq<Seq<char>>,
    first: Seq<K>,
    second: Seq<K>,
)
    requires
        is_ranked_selection(items, terms, first),
        is_ranked_selection(items, terms, second),
    ensures
        first == second,
{
    let first_order = choose|order: Seq<int>|
        is_ranking(item_scores(items, terms), order) && first == selected(items, order);
    let second_order = choose|order: Seq<int>|
        is_ranking(item_scores(items, terms), order) && second == selected(items, order);
    ranking_is_unique(item_scores(items, terms), first_order, second_order);
}

} // verus!
