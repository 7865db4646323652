//! The full set of facts under which a credential operates, and whether two of
//! them may share a host process.
//!
//! A host process runs the work of one identity context, because a process
//! holds tickets, tokens, session keys and connection handles, and process
//! isolation is the boundary the operating system actually enforces.
//!
//! The facts are held as a list of name/value pairs in ascending name order,
//! each name once. That one spelling per set of facts is what lets two
//! contexts be compared pair by pair.

use vstd::prelude::*;
use crate::mechanism::{class_text, IdentityClass, Mechanism};
use crate::text::{
    compare_text, lemma_text_lt_asymmetric, lemma_text_lt_irreflexive, lemma_text_lt_total,
    lemma_text_lt_transitive, text_lt, TextOrder,
};

verus! {

/// Whether the names of `s` ascend strictly, so that no name occurs twice.
pub open spec fn names_ascend(s: Seq<(Seq<char>, Seq<char>)>) -> bool {
    forall|i: int, j: int| 0 <= i < j < s.len() ==> text_lt(#[trigger] s[i].0, #[trigger] s[j].0)
}

/// Whether `name` is the name of one of the pairs of `s`.
pub open spec fn names_in(s: Seq<(Seq<char>, Seq<char>)>, name: Seq<char>) -> bool {
    exists|i: int| 0 <= i < s.len() && #[trigger] s[i].0 == name
}

/// The facts that the pairs `s` state: each name to its value.
pub open spec fn facts_of(s: Seq<(Seq<char>, Seq<char>)>) -> Map<Seq<char>, Seq<char>> {
    Map::new(
        |name: Seq<char>| names_in(s, name),
        |name: Seq<char>| s[choose|i: int| 0 <= i < s.len() && #[trigger] s[i].0 == name].1,
    )
}

/// In ascending pairs, the pair at `i` is what the facts say of its name.
pub proof fn lemma_facts_of_at(s: Seq<(Seq<char>, Seq<char>)>, i: int)
    requires
        names_ascend(s),
        0 <= i < s.len(),
    ensures
        facts_of(s).contains_key(s[i].0),
        facts_of(s)[s[i].0] == s[i].1,
{
    assert(names_in(s, s[i].0));
    let j = choose|j: int| 0 <= j < s.len() && #[trigger] s[j].0 == s[i].0;
    if j != i {
        lemma_text_lt_irreflexive(s[i].0);
        if j < i {
            assert(text_lt(s[j].0, s[i].0));
        } else {
            assert(text_lt(s[i].0, s[j].0));
        }
    }
}

/// Dropping the first of ascending pairs drops its name from the facts.
proof fn lemma_facts_of_drop_first(s: Seq<(Seq<char>, Seq<char>)>)
    requires
        names_ascend(s),
        s.len() > 0,
    ensures
        names_ascend(s.drop_first()),
        facts_of(s.drop_first()) == facts_of(s).remove(s[0].0),
{
    let t = s.drop_first();
    assert forall|i: int, j: int| 0 <= i < j < t.len() implies text_lt(
        #[trigger] t[i].0,
        #[trigger] t[j].0,
    ) by {
        assert(t[i] == s[i + 1] && t[j] == s[j + 1]);
    }
    assert forall|name: Seq<char>| #[trigger]
        facts_of(t).contains_key(name) == facts_of(s).remove(s[0].0).contains_key(name) by {
        if names_in(t, name) {
            let i = choose|i: int| 0 <= i < t.len() && #[trigger] t[i].0 == name;
            assert(s[i + 1].0 == name);
            assert(text_lt(s[0].0, s[i + 1].0));
            lemma_text_lt_irreflexive(name);
            assert(names_in(s, name));
        }
        if names_in(s, name) && name != s[0].0 {
            let i = choose|i: int| 0 <= i < s.len() && #[trigger] s[i].0 == name;
            assert(i != 0);
            assert(t[i - 1].0 == name);
        }
    }
    assert forall|name: Seq<char>| #[trigger] facts_of(t).contains_key(name) implies facts_of(t)[name]
        == facts_of(s)[name] by {
        let i = choose|i: int| 0 <= i < t.len() && #[trigger] t[i].0 == name;
        lemma_facts_of_at(t, i);
        assert(t[i] == s[i + 1]);
        lemma_facts_of_at(s, i + 1);
    }
    assert(facts_of(t) =~= facts_of(s).remove(s[0].0));
}

/// Ascending pairs are the only spelling of their facts: two lists of
/// ascending pairs that state the same facts are the same list.
pub proof fn lemma_ascending_pairs_are_canonical(
    a: Seq<(Seq<char>, Seq<char>)>,
    b: Seq<(Seq<char>, Seq<char>)>,
)
    requires
        names_ascend(a),
        names_ascend(b),
        facts_of(a) == facts_of(b),
    ensures
        a == b,
    decreases a.len(),
{
    if a.len() == 0 || b.len() == 0 {
        if a.len() > 0 {
            lemma_facts_of_at(a, 0);
            assert(facts_of(b).contains_key(a[0].0));
        }
        if b.len() > 0 {
            lemma_facts_of_at(b, 0);
            assert(facts_of(a).contains_key(b[0].0));
        }
        assert(a =~= b);
    } else {
        let ka = a[0].0;
        let kb = b[0].0;
        lemma_facts_of_at(a, 0);
        lemma_facts_of_at(b, 0);
        assert(names_in(b, ka));
        assert(names_in(a, kb));
        let j = choose|j: int| 0 <= j < b.len() && #[trigger] b[j].0 == ka;
        let i = choose|i: int| 0 <= i < a.len() && #[trigger] a[i].0 == kb;
        if ka != kb {
            assert(j > 0 && i > 0);
            assert(text_lt(b[0].0, b[j].0));
            assert(text_lt(a[0].0, a[i].0));
            lemma_text_lt_asymmetric(ka, kb);
        }
        assert(a[0] == b[0]);
        lemma_facts_of_drop_first(a);
        lemma_facts_of_drop_first(b);
        lemma_ascending_pairs_are_canonical(a.drop_first(), b.drop_first());
        assert(a =~= b) by {
            assert(a.len() == a.drop_first().len() + 1);
            assert(b.len() == b.drop_first().len() + 1);
            assert forall|k: int| 0 <= k < a.len() implies a[k] == b[k] by {
                if k > 0 {
                    assert(a[k] == a.drop_first()[k - 1]);
                    assert(b[k] == b.drop_first()[k - 1]);
                }
            }
        }
    }
}


/// Adding a name between its neighbours keeps the names ascending, and adds
/// that one fact.
proof fn lemma_insert_pair(
    s: Seq<(Seq<char>, Seq<char>)>,
    i: int,
    name: Seq<char>,
    value: Seq<char>,
)
    requires
        names_ascend(s),
        0 <= i <= s.len(),
        forall|t: int| 0 <= t < i ==> text_lt(#[trigger] s[t].0, name),
        i < s.len() ==> text_lt(name, s[i].0),
    ensures
        names_ascend(s.insert(i, (name, value))),
        facts_of(s.insert(i, (name, value))) == facts_of(s).insert(name, value),
{
    let u = s.insert(i, (name, value));
    assert forall|a: int, b: int| 0 <= a < b < u.len() implies text_lt(
        #[trigger] u[a].0,
        #[trigger] u[b].0,
    ) by {
        if b < i {
            assert(u[a] == s[a] && u[b] == s[b]);
        } else if b == i {
            assert(u[a] == s[a]);
        } else if a == i {
            assert(u[b] == s[b - 1]);
            if b - 1 > i {
                assert(text_lt(s[i].0, s[b - 1].0));
                lemma_text_lt_transitive(name, s[i].0, s[b - 1].0);
            }
        } else if a < i {
            assert(u[a] == s[a] && u[b] == s[b - 1]);
        } else {
            assert(u[a] == s[a - 1] && u[b] == s[b - 1]);
        }
    }
    assert(u[i] == (name, value));
    lemma_facts_of_at(u, i);
    assert forall|k: Seq<char>| #[trigger]
        facts_of(u).contains_key(k) == facts_of(s).insert(name, value).contains_key(k) by {
        if names_in(u, k) && k != name {
            let j = choose|j: int| 0 <= j < u.len() && #[trigger] u[j].0 == k;
            if j < i {
                assert(s[j] == u[j]);
            } else {
                assert(j != i);
                assert(s[j - 1] == u[j]);
            }
        }
        if names_in(s, k) {
            let j = choose|j: int| 0 <= j < s.len() && #[trigger] s[j].0 == k;
            if j < i {
                assert(u[j] == s[j]);
            } else {
                assert(u[j + 1] == s[j]);
            }
        }
    }
    assert forall|k: Seq<char>| #[trigger] facts_of(u).contains_key(k) implies facts_of(u)[k]
        == facts_of(s).insert(name, value)[k] by {
        if k != name {
            let j = choose|j: int| 0 <= j < u.len() && #[trigger] u[j].0 == k;
            lemma_facts_of_at(u, j);
            if j < i {
                assert(s[j] == u[j]);
                lemma_facts_of_at(s, j);
            } else {
                assert(s[j - 1] == u[j]);
                lemma_facts_of_at(s, j - 1);
            }
        }
    }
    assert(facts_of(u) =~= facts_of(s).insert(name, value));
}

/// Giving a name that is already there a new value keeps the names ascending,
/// and replaces that one fact.
proof fn lemma_replace_pair(
    s: Seq<(Seq<char>, Seq<char>)>,
    i: int,
    name: Seq<char>,
    value: Seq<char>,
)
    requires
        names_ascend(s),
        0 <= i < s.len(),
        s[i].0 == name,
    ensures
        names_ascend(s.update(i, (name, value))),
        facts_of(s.update(i, (name, value))) == facts_of(s).insert(name, value),
{
    let u = s.update(i, (name, value));
    assert forall|a: int, b: int| 0 <= a < b < u.len() implies text_lt(
        #[trigger] u[a].0,
        #[trigger] u[b].0,
    ) by {
        assert(u[a].0 == s[a].0 && u[b].0 == s[b].0);
    }
    lemma_facts_of_at(u, i);
    assert forall|k: Seq<char>| #[trigger]
        facts_of(u).contains_key(k) == facts_of(s).insert(name, value).contains_key(k) by {
        if names_in(u, k) {
            let j = choose|j: int| 0 <= j < u.len() && #[trigger] u[j].0 == k;
            assert(s[j].0 == k);
        }
        if names_in(s, k) {
            let j = choose|j: int| 0 <= j < s.len() && #[trigger] s[j].0 == k;
            assert(u[j].0 == k);
        }
    }
    assert forall|k: Seq<char>| #[trigger] facts_of(u).contains_key(k) implies facts_of(u)[k]
        == facts_of(s).insert(name, value)[k] by {
        if k != name {
            let j = choose|j: int| 0 <= j < u.len() && #[trigger] u[j].0 == k;
            assert(j != i);
            lemma_facts_of_at(u, j);
            lemma_facts_of_at(s, j);
        }
    }
    assert(facts_of(u) =~= facts_of(s).insert(name, value));
}

/// The name/value pairs behind `pairs`, as text.
pub open spec fn pairs_view(pairs: Seq<(String, String)>) -> Seq<(Seq<char>, Seq<char>)> {
    pairs.map_values(|p: (String, String)| (p.0@, p.1@))
}

/// Where `name` stands among ascending `pairs`: the position of the first
/// pair whose name does not come before it, and whether that pair is `name`'s.
fn position_of(pairs: &Vec<(String, String)>, name: &str) -> (r: (usize, bool))
    requires
        names_ascend(pairs_view(pairs@)),
    ensures
        r.0 <= pairs@.len(),
        forall|t: int| 0 <= t < r.0 ==> text_lt(#[trigger] pairs_view(pairs@)[t].0, name@),
        r.1 == (r.0 < pairs@.len() && pairs_view(pairs@)[r.0 as int].0 == name@),
        !r.1 && r.0 < pairs@.len() ==> text_lt(name@, pairs_view(pairs@)[r.0 as int].0),
{
    let n = pairs.len();
    let mut i: usize = 0;
    while i < n
        invariant
            n == pairs@.len(),
            0 <= i <= n,
            forall|t: int| 0 <= t < i ==> text_lt(#[trigger] pairs_view(pairs@)[t].0, name@),
        decreases n - i,
    {
        let order = compare_text(pairs[i].0.as_str(), name);
        assert(pairs_view(pairs@)[i as int].0 == pairs@[i as int].0@);
        match order {
            TextOrder::Before => {
                i = i + 1;
            },
            TextOrder::Same => {
                return (i, true);
            },
            TextOrder::After => {
                return (i, false);
            },
        }
    }
    (i, false)
}


/// What an identity context is: the mechanism's name, its class, and the
/// facts, each name to its value.
#[verifier::ext_equal]
pub struct ContextView {
    pub mechanism: Seq<char>,
    pub class: IdentityClass,
    pub facts: Map<Seq<char>, Seq<char>>,
}

impl ContextView {
    /// The same context with the fact `name` set to `value`, whether or not
    /// it was there before.
    pub open spec fn with_fact(self, name: Seq<char>, value: Seq<char>) -> ContextView {
        ContextView { facts: self.facts.insert(name, value), ..self }
    }
}

/// The one ascending list of name/value pairs that states `facts`.
pub open spec fn ascending_pairs(facts: Map<Seq<char>, Seq<char>>) -> Seq<(Seq<char>, Seq<char>)> {
    choose|s: Seq<(Seq<char>, Seq<char>)>| names_ascend(s) && facts_of(s) == facts
}

/// The pairs `s` shown one after the other, each as ` name=value`.
pub open spec fn facts_text(s: Seq<(Seq<char>, Seq<char>)>) -> Seq<char>
    decreases s.len(),
{
    if s.len() == 0 {
        Seq::empty()
    } else {
        facts_text(s.drop_last()) + " "@ + s.last().0 + "="@ + s.last().1
    }
}

/// How a context reads: `mechanism[class]`, then each fact as ` name=value`
/// in ascending name order.
pub open spec fn context_text(c: ContextView) -> Seq<char> {
    c.mechanism + "["@ + class_text(c.class) + "]"@ + facts_text(ascending_pairs(c.facts))
}

/// The full set of facts under which a credential operates.
///
/// Two credentials share a context only when every fact matches, which is
/// why this compares structurally rather than by principal name: constrained
/// and unconstrained Kerberos delegation are distinct contexts even for the
/// same principal.
#[derive(Debug, PartialEq, Eq, Hash, PartialOrd, Ord)]
pub struct IdentityContext {
    mechanism: String,
    class: IdentityClass,
    facts: Vec<(String, String)>,
}

impl View for IdentityContext {
    type V = ContextView;

    closed spec fn view(&self) -> ContextView {
        ContextView {
            mechanism: self.mechanism@,
            class: self.class,
            facts: facts_of(pairs_view(self.facts@)),
        }
    }
}

impl IdentityContext {
    #[verifier::type_invariant]
    closed spec fn facts_ascend(self) -> bool {
        names_ascend(pairs_view(self.facts@))
    }

    /// The context of `mechanism`, with no facts yet.
    pub fn new(mechanism: &Mechanism) -> (r: Self)
        ensures
            r@ == (ContextView {
                mechanism: mechanism@.name,
                class: mechanism@.class,
                facts: Map::empty(),
            }),
    {
        let facts: Vec<(String, String)> = Vec::new();
        assert(facts_of(pairs_view(facts@)) =~= Map::empty());
        IdentityContext { mechanism: String::from_str(mechanism.name()), class: mechanism.class(), facts }
    }

    /// Add a fact. A later value for the same name replaces an earlier one.
    pub fn with(self, fact: &str, value: &str) -> (r: Self)
        ensures
            r@ == self@.with_fact(fact@, value@),
    {
        proof {
            use_type_invariant(&self);
        }
        let IdentityContext { mechanism, class, mut facts } = self;
        let ghost before = pairs_view(facts@);
        let (i, found) = position_of(&facts, fact);
        let pair = (String::from_str(fact), String::from_str(value));
        if found {
            facts.set(i, pair);
            proof {
                lemma_replace_pair(before, i as int, fact@, value@);
                assert(pairs_view(facts@) =~= before.update(i as int, (fact@, value@)));
            }
        } else {
            facts.insert(i, pair);
            proof {
                lemma_insert_pair(before, i as int, fact@, value@);
                assert(pairs_view(facts@) =~= before.insert(i as int, (fact@, value@)));
            }
        }
        IdentityContext { mechanism, class, facts }
    }

    pub fn mechanism(&self) -> (r: &str)
        ensures
            r@ == self@.mechanism,
    {
        self.mechanism.as_str()
    }

    pub fn class(&self) -> (r: IdentityClass)
        ensures
            r == self@.class,
    {
        self.class
    }

    /// The value of the fact `name`, if the context has one.
    pub fn fact(&self, name: &str) -> (r: Option<&str>)
        ensures
            match r {
                Some(v) => self@.facts.contains_key(name@) && v@ == self@.facts[name@],
                None => !self@.facts.contains_key(name@),
            },
    {
        proof {
            use_type_invariant(self);
        }
        let ghost s = pairs_view(self.facts@);
        let (i, found) = position_of(&self.facts, name);
        if found {
            proof {
                lemma_facts_of_at(s, i as int);
            }
            Some(self.facts[i].1.as_str())
        } else {
            proof {
                if names_in(s, name@) {
                    let j = choose|j: int| 0 <= j < s.len() && #[trigger] s[j].0 == name@;
                    lemma_text_lt_irreflexive(name@);
                    if j > i {
                        assert(text_lt(s[i as int].0, s[j].0));
                        lemma_text_lt_asymmetric(name@, s[i as int].0);
                    }
                }
            }
            None
        }
    }
}

impl IdentityContext {
    /// Whether these two may run in one host process: only when they are the
    /// same context, every fact matching.
    ///
    /// Anything finer than a process is a promise made by whatever code
    /// happens to be running, and Xmip loads third-party Modules across a C
    /// ABI.
    pub fn may_share_host_process(&self, other: &Self) -> (r: bool)
        ensures
            r == (self@ == other@),
    {
        proof {
            use_type_invariant(self);
            use_type_invariant(other);
        }
        let ghost a = pairs_view(self.facts@);
        let ghost b = pairs_view(other.facts@);
        let same_mechanism = compare_text(self.mechanism.as_str(), other.mechanism.as_str());
        if same_mechanism != TextOrder::Same {
            return false;
        }
        if self.class != other.class {
            return false;
        }
        let n = self.facts.len();
        if n != other.facts.len() {
            proof {
                if self@ == other@ {
                    lemma_ascending_pairs_are_canonical(a, b);
                }
            }
            return false;
        }
        let mut i: usize = 0;
        while i < n
            invariant
                n == self.facts@.len(),
                n == other.facts@.len(),
                a == pairs_view(self.facts@),
                b == pairs_view(other.facts@),
                names_ascend(a),
                names_ascend(b),
                0 <= i <= n,
                forall|t: int| 0 <= t < i ==> a[t] == b[t],
            decreases n - i,
        {
            let names = compare_text(self.facts[i].0.as_str(), other.facts[i].0.as_str());
            let values = compare_text(self.facts[i].1.as_str(), other.facts[i].1.as_str());
            if names != TextOrder::Same || values != TextOrder::Same {
                proof {
                    assert(a[i as int] != b[i as int]);
                    if self@ == other@ {
                        lemma_ascending_pairs_are_canonical(a, b);
                    }
                }
                return false;
            }
            i = i + 1;
        }
        assert(a =~= b);
        assert(self@ =~= other@);
        true
    }

    /// How this context reads, so that a failure can name both contexts:
    /// `mechanism[class]`, then each fact as ` name=value` in ascending name
    /// order.
    pub fn to_string(&self) -> (r: String)
        ensures
            r@ == context_text(self@),
    {
        proof {
            use_type_invariant(self);
        }
        let ghost s = pairs_view(self.facts@);
        let mut out = self.mechanism.clone();
        out.append("[");
        let class = self.class.to_string();
        out.append(class.as_str());
        out.append("]");
        let ghost head = out@;
        let n = self.facts.len();
        let mut i: usize = 0;
        while i < n
            invariant
                n == self.facts@.len(),
                s == pairs_view(self.facts@),
                0 <= i <= n,
                out@ == head + facts_text(s.take(i as int)),
            decreases n - i,
        {
            out.append(" ");
            out.append(self.facts[i].0.as_str());
            out.append("=");
            out.append(self.facts[i].1.as_str());
            proof {
                let t = s.take(i + 1);
                assert(t.drop_last() == s.take(i as int));
                assert(t.last() == s[i as int]);
                assert(out@ =~= head + facts_text(t));
            }
            i = i + 1;
        }
        proof {
            assert(s.take(n as int) == s);
            assert(names_ascend(s) && facts_of(s) == self@.facts);
            let c = ascending_pairs(self@.facts);
            lemma_ascending_pairs_are_canonical(c, s);
        }
        out
    }
}

impl Clone for IdentityContext {
    fn clone(&self) -> (r: Self)
        ensures
            r@ == self@,
    {
        proof {
            use_type_invariant(self);
        }
        let n = self.facts.len();
        let mut facts: Vec<(String, String)> = Vec::new();
        let mut i: usize = 0;
        while i < n
            invariant
                n == self.facts@.len(),
                0 <= i <= n,
                facts@ == self.facts@.take(i as int),
            decreases n - i,
        {
            let pair = (self.facts[i].0.clone(), self.facts[i].1.clone());
            assert(pair == self.facts@[i as int]);
            facts.push(pair);
            assert(facts@ =~= self.facts@.take(i + 1));
            i = i + 1;
        }
        assert(self.facts@.take(n as int) =~= self.facts@);
        IdentityContext { mechanism: self.mechanism.clone(), class: self.class, facts }
    }
}

/// A fact reads back as the value last given for it, and giving it leaves
/// every other fact as it was.
pub proof fn law_fact_reads_back(c: ContextView, name: Seq<char>, value: Seq<char>)
    ensures
        c.with_fact(name, value).facts.contains_key(name),
        c.with_fact(name, value).facts[name] == value,
        forall|other: Seq<char>|
            other != name ==> (#[trigger] c.with_fact(name, value).facts.contains_key(other)
                == c.facts.contains_key(other)) && (c.facts.contains_key(other) ==> c.with_fact(
                name,
                value,
            ).facts[other] == c.facts[other]),
        c.with_fact(name, value).mechanism == c.mechanism,
        c.with_fact(name, value).class == c.class,
{
}

/// A later value for the same fact replaces an earlier one: the earlier is
/// not kept anywhere.
pub proof fn law_later_value_replaces_earlier(
    c: ContextView,
    name: Seq<char>,
    earlier: Seq<char>,
    later: Seq<char>,
)
    ensures
        c.with_fact(name, earlier).with_fact(name, later) == c.with_fact(name, later),
{
    assert(c.with_fact(name, earlier).with_fact(name, later) =~= c.with_fact(name, later));
}

/// The order facts are given in does not matter: contexts built from the
/// same facts in another order are the same context.
pub proof fn law_fact_order_is_irrelevant(
    c: ContextView,
    first: Seq<char>,
    first_value: Seq<char>,
    second: Seq<char>,
    second_value: Seq<char>,
)
    requires
        first != second,
    ensures
        c.with_fact(first, first_value).with_fact(second, second_value) == c.with_fact(
            second,
            second_value,
        ).with_fact(first, first_value),
{
    assert(c.with_fact(first, first_value).with_fact(second, second_value) =~= c.with_fact(
        second,
        second_value,
    ).with_fact(first, first_value));
}

/// Contexts that differ in the value of one fact are different contexts, and
/// so may not share a host process: the same principal with constrained and
/// with unconstrained delegation is two contexts.
pub proof fn law_one_differing_fact_separates(
    c: ContextView,
    name: Seq<char>,
    one: Seq<char>,
    other: Seq<char>,
)
    requires
        one != other,
    ensures
        c.with_fact(name, one) != c.with_fact(name, other),
{
    assert(c.with_fact(name, one).facts[name] == one);
    assert(c.with_fact(name, other).facts[name] == other);
}

/// Among ascending pairs, a name not yet there has a place: after every name
/// that comes before it and before every name it comes before.
proof fn lemma_place_for_name(s: Seq<(Seq<char>, Seq<char>)>, name: Seq<char>) -> (i: int)
    requires
        names_ascend(s),
        !names_in(s, name),
    ensures
        0 <= i <= s.len(),
        forall|t: int| 0 <= t < i ==> text_lt(#[trigger] s[t].0, name),
        i < s.len() ==> text_lt(name, s[i].0),
    decreases s.len(),
{
    if s.len() == 0 {
        0
    } else {
        let last = s.len() - 1;
        let d = s.drop_last();
        assert(names_ascend(d)) by {
            assert forall|a: int, b: int| 0 <= a < b < d.len() implies text_lt(
                #[trigger] d[a].0,
                #[trigger] d[b].0,
            ) by {
                assert(d[a] == s[a] && d[b] == s[b]);
            }
        }
        assert(!names_in(d, name)) by {
            if names_in(d, name) {
                let j = choose|j: int| 0 <= j < d.len() && #[trigger] d[j].0 == name;
                assert(s[j].0 == name);
            }
        }
        assert(s[last].0 != name);
        lemma_text_lt_total(s[last].0, name);
        if text_lt(s[last].0, name) {
            assert forall|t: int| 0 <= t < s.len() implies text_lt(#[trigger] s[t].0, name) by {
                if t < last {
                    lemma_text_lt_transitive(s[t].0, s[last].0, name);
                }
            }
            s.len() as int
        } else {
            let i = lemma_place_for_name(d, name);
            assert forall|t: int| 0 <= t < i implies text_lt(#[trigger] s[t].0, name) by {
                assert(s[t] == d[t]);
            }
            if i < d.len() {
                assert(s[i] == d[i]);
            }
            i
        }
    }
}

/// Every finite set of facts has its ascending list of pairs.
pub proof fn lemma_ascending_pairs_exist(facts: Map<Seq<char>, Seq<char>>)
    requires
        facts.dom().finite(),
    ensures
        names_ascend(ascending_pairs(facts)),
        facts_of(ascending_pairs(facts)) == facts,
    decreases facts.dom().len(),
{
    if facts.dom().len() == 0 {
        let e = Seq::<(Seq<char>, Seq<char>)>::empty();
        assert(facts_of(e) =~= facts) by {
            assert(facts.dom() =~= Set::<Seq<char>>::empty());
        }
    } else {
        let name = facts.dom().choose();
        let rest = facts.remove(name);
        assert(rest.dom() =~= facts.dom().remove(name));
        lemma_ascending_pairs_exist(rest);
        let s = ascending_pairs(rest);
        assert(!names_in(s, name)) by {
            if names_in(s, name) {
                assert(facts_of(s).contains_key(name));
            }
        }
        let i = lemma_place_for_name(s, name);
        lemma_insert_pair(s, i, name, facts[name]);
        assert(rest.insert(name, facts[name]) =~= facts);
    }
}

/// With no facts, a context reads as its mechanism and class alone:
/// `mechanism[class]`.
pub proof fn law_a_context_without_facts_reads_as_its_mechanism_and_class(c: ContextView)
    requires
        c.facts == Map::<Seq<char>, Seq<char>>::empty(),
    ensures
        context_text(c) == c.mechanism + "["@ + class_text(c.class) + "]"@,
{
    let e = Seq::<(Seq<char>, Seq<char>)>::empty();
    assert(facts_of(e) =~= c.facts);
    let s = ascending_pairs(c.facts);
    lemma_ascending_pairs_are_canonical(s, e);
    assert(facts_text(e) == Seq::<char>::empty());
    assert(c.mechanism + "["@ + class_text(c.class) + "]"@ + facts_text(e) =~= c.mechanism + "["@
        + class_text(c.class) + "]"@);
}

/// Giving a context a fact whose name comes after every name it already has
/// extends its text by exactly ` name=value`. With the law for a context
/// without facts, this fixes the text of every context: each fact is shown,
/// once, as ` name=value`, in ascending name order, and nothing else is.
pub proof fn law_a_new_last_fact_extends_the_text(
    c: ContextView,
    name: Seq<char>,
    value: Seq<char>,
)
    requires
        c.facts.dom().finite(),
        forall|k: Seq<char>| #[trigger] c.facts.contains_key(k) ==> text_lt(k, name),
    ensures
        context_text(c.with_fact(name, value)) == context_text(c) + " "@ + name + "="@ + value,
{
    lemma_ascending_pairs_exist(c.facts);
    let s = ascending_pairs(c.facts);
    assert forall|t: int| 0 <= t < s.len() implies text_lt(#[trigger] s[t].0, name) by {
        lemma_facts_of_at(s, t);
    }
    lemma_insert_pair(s, s.len() as int, name, value);
    let u = s.insert(s.len() as int, (name, value));
    assert(u =~= s.push((name, value)));
    let w = ascending_pairs(c.with_fact(name, value).facts);
    lemma_ascending_pairs_are_canonical(w, u);
    assert(u.drop_last() =~= s);
    assert(facts_text(u) == facts_text(s) + " "@ + name + "="@ + value);
    let head = c.mechanism + "["@ + class_text(c.class) + "]"@;
    assert(head + (facts_text(s) + " "@ + name + "="@ + value) =~= head + facts_text(s) + " "@
        + name + "="@ + value);
}

} // verus!
