//! The preference reconciler.
//!
//! The daemon has no first-class "advertise as exit node" boolean: it is
//! inferred from, and mutated through, the advertised-route list holding
//! the two universal default entries (the IPv4 "everything" route and its
//! IPv6 counterpart).  This module maps between that raw representation
//! and a flat, independently togglable preference set, in both
//! directions, and states the mapping exactly.

use vstd::prelude::*;
use vstd::string::StringExecFns;
use crate::daemon::DaemonError;
use crate::text::{str_eq, trim_spec, trim_text};

verus! {

/// The flat, reconciled preference record exposed to collaborators.
/// `advertise_exit_node` and `advertise_routes` are derived fields: the
/// daemon folds both into one raw route list.
#[derive(Debug, Clone)]
pub struct TailscalePrefs {
    pub accept_dns: bool,
    pub accept_routes: bool,
    pub shields_up: bool,
    pub ssh: bool,
    pub advertise_exit_node: bool,
    pub exit_node_allow_lan: bool,
    pub webclient: bool,
    pub hostname: String,
    pub advertise_routes: String,
    pub login_name: String,
}

/// Whether a route entry is one of the two universal default entries
/// that signal exit-node capability.
pub open spec fn is_default_route(s: Seq<char>) -> bool {
    s == "0.0.0.0/0"@ || s == "::/0"@
}

/// The read path's exit-node bit: some raw route entry is a universal
/// default entry.
pub open spec fn spec_exit_advertised(rs: Seq<Seq<char>>) -> bool {
    exists|i: int| 0 <= i < rs.len() && is_default_route(rs[i])
}

/// The raw route list with both universal default entries filtered out,
/// relative order preserved: the user-facing route list.
pub open spec fn spec_nondefault(rs: Seq<Seq<char>>) -> Seq<Seq<char>> {
    rs.filter(|s: Seq<char>| !is_default_route(s))
}

/// The write path for the exit-node bit: enabling appends whichever
/// universal default entries are missing; disabling removes both.
pub open spec fn spec_routes_with_exit(rs: Seq<Seq<char>>, enable: bool) -> Seq<Seq<char>> {
    if enable {
        let with4 = if rs.contains("0.0.0.0/0"@) {
            rs
        } else {
            rs.push("0.0.0.0/0"@)
        };
        if with4.contains("::/0"@) {
            with4
        } else {
            with4.push("::/0"@)
        }
    } else {
        spec_nondefault(rs)
    }
}

/// Decides whether one route entry is a universal default entry.
fn route_is_default(r: &str) -> (b: bool)
    ensures
        b == is_default_route(r@),
{
    str_eq(r, "0.0.0.0/0") || str_eq(r, "::/0")
}

/// The read path's exit-node bit, decided over a raw route list.
pub fn exit_node_advertised(routes: &Vec<String>) -> (b: bool)
    ensures
        b == spec_exit_advertised(routes.deep_view()),
{
    let ghost dv = routes.deep_view();
    let mut i: usize = 0;
    while i < routes.len()
        invariant
            i <= routes.len(),
            dv == routes.deep_view(),
            dv.len() == routes.len(),
            forall|k: int| 0 <= k < i ==> !is_default_route(dv[k]),
        decreases routes.len() - i,
    {
        if route_is_default(routes[i].as_str()) {
            assert(is_default_route(dv[i as int]));
            return true;
        }
        i += 1;
    }
    false
}

/// Whether the raw route list holds the given entry.
fn contains_route(routes: &Vec<String>, target: &str) -> (b: bool)
    ensures
        b == routes.deep_view().contains(target@),
{
    let ghost dv = routes.deep_view();
    let mut i: usize = 0;
    while i < routes.len()
        invariant
            i <= routes.len(),
            dv == routes.deep_view(),
            dv.len() == routes.len(),
            forall|k: int| 0 <= k < i ==> dv[k] != target@,
        decreases routes.len() - i,
    {
        if str_eq(routes[i].as_str(), target) {
            assert(dv[i as int] == target@);
            return true;
        }
        i += 1;
    }
    false
}

/// Appending an element to a sequence filters to the old filtering,
/// extended by the element exactly when it satisfies the predicate.
pub(crate) proof fn lemma_filter_push<A>(s: Seq<A>, pred: spec_fn(A) -> bool, a: A)
    ensures
        s.push(a).filter(pred) == if pred(a) {
            s.filter(pred).push(a)
        } else {
            s.filter(pred)
        },
{
    reveal(Seq::filter);
    assert(s.push(a).drop_last() =~= s);
    assert(s.push(a).last() == a);
}

/// A sequence whose elements all satisfy the predicate filters to
/// itself.
proof fn lemma_filter_all<A>(s: Seq<A>, pred: spec_fn(A) -> bool)
    requires
        forall|i: int| 0 <= i < s.len() ==> pred(#[trigger] s[i]),
    ensures
        s.filter(pred) == s,
    decreases s.len(),
{
    reveal(Seq::filter);
    if s.len() > 0 {
        lemma_filter_all(s.drop_last(), pred);
        assert(s.drop_last().push(s.last()) =~= s);
    }
}

/// The user-facing route list: the raw list with both universal default
/// entries removed, relative order preserved.
pub fn strip_default_routes(routes: &Vec<String>) -> (r: Vec<String>)
    ensures
        r.deep_view() == spec_nondefault(routes.deep_view()),
{
    let ghost dv = routes.deep_view();
    let ghost pred = |s: Seq<char>| !is_default_route(s);
    let mut r: Vec<String> = Vec::new();
    proof {
        reveal(Seq::filter);
        assert(dv.take(0) =~= Seq::<Seq<char>>::empty());
    }
    let mut i: usize = 0;
    while i < routes.len()
        invariant
            i <= routes.len(),
            dv == routes.deep_view(),
            dv.len() == routes.len(),
            pred == (|s: Seq<char>| !is_default_route(s)),
            r.deep_view() == dv.take(i as int).filter(pred),
        decreases routes.len() - i,
    {
        let ghost old_r = r.deep_view();
        proof {
            assert(dv.take(i as int).push(dv[i as int]) =~= dv.take(i + 1));
            lemma_filter_push(dv.take(i as int), pred, dv[i as int]);
        }
        if !route_is_default(routes[i].as_str()) {
            r.push(routes[i].clone());
            proof {
                assert(r.deep_view() =~= old_r.push(dv[i as int]));
            }
        }
        i += 1;
    }
    proof {
        assert(dv.take(routes.len() as int) =~= dv);
    }
    r
}

/// The write path for the exit-node bit, over the raw route list read
/// from the daemon at call time: enabling appends whichever universal
/// default entries are missing, disabling removes both, and everything
/// else is left in place.
pub fn routes_with_exit(routes: Vec<String>, enable: bool) -> (r: Vec<String>)
    ensures
        r.deep_view() == spec_routes_with_exit(routes.deep_view(), enable),
{
    let ghost dv = routes.deep_view();
    if enable {
        let mut r = routes;
        if !contains_route(&r, "0.0.0.0/0") {
            let ghost before = r.deep_view();
            r.push(String::from_str("0.0.0.0/0"));
            proof {
                assert(r.deep_view() =~= before.push("0.0.0.0/0"@));
            }
        }
        if !contains_route(&r, "::/0") {
            let ghost before = r.deep_view();
            r.push(String::from_str("::/0"));
            proof {
                assert(r.deep_view() =~= before.push("::/0"@));
            }
        }
        r
    } else {
        strip_default_routes(&routes)
    }
}

/// The delimited string shown to the user for a route list: the entries
/// joined with commas.
pub open spec fn spec_join_commas(rs: Seq<Seq<char>>) -> Seq<char>
    decreases rs.len(),
{
    if rs.len() == 0 {
        Seq::empty()
    } else if rs.len() == 1 {
        rs[0]
    } else {
        spec_join_commas(rs.drop_last()) + ","@ + rs.last()
    }
}

/// Joins a route list into the user-facing comma-delimited string.
pub fn join_routes(routes: &Vec<String>) -> (r: String)
    ensures
        r@ == spec_join_commas(routes.deep_view()),
{
    let ghost dv = routes.deep_view();
    if routes.len() == 0 {
        return String::new();
    }
    let mut s = routes[0].clone();
    proof {
        assert(dv.take(1) =~= seq![dv[0]]);
        assert(s@ == spec_join_commas(dv.take(1)));
    }
    let mut i: usize = 1;
    while i < routes.len()
        invariant
            1 <= i <= routes.len(),
            dv == routes.deep_view(),
            dv.len() == routes.len(),
            s@ == spec_join_commas(dv.take(i as int)),
        decreases routes.len() - i,
    {
        s.append(",");
        s.append(routes[i].as_str());
        proof {
            assert(dv.take(i + 1).drop_last() =~= dv.take(i as int));
            assert(dv.take(i + 1).last() == dv[i as int]);
        }
        i += 1;
    }
    proof {
        assert(dv.take(routes.len() as int) =~= dv);
    }
    s
}

/// How a comma-delimited string falls apart at its commas: at least one
/// piece, empty pieces included.
pub open spec fn spec_split_commas(s: Seq<char>) -> Seq<Seq<char>>
    decreases s.len(),
{
    if s.len() == 0 {
        seq![Seq::<char>::empty()]
    } else if s[0] == ',' {
        seq![Seq::<char>::empty()] + spec_split_commas(s.drop_first())
    } else {
        let rest = spec_split_commas(s.drop_first());
        rest.update(0, seq![s[0]] + rest[0])
    }
}

/// Splitting yields at least one piece.
proof fn lemma_split_commas_len(s: Seq<char>)
    ensures
        spec_split_commas(s).len() >= 1,
    decreases s.len(),
{
    if s.len() > 0 {
        lemma_split_commas_len(s.drop_first());
    }
}

/// Splitting cuts at the first comma: the piece before it, then the
/// splitting of what follows it; a string without commas is one piece.
proof fn lemma_split_at_first_comma(s: Seq<char>, i: int)
    requires
        0 <= i <= s.len(),
        forall|k: int| 0 <= k < i ==> s[k] != ',',
        i < s.len() ==> s[i] == ',',
    ensures
        i == s.len() ==> spec_split_commas(s) == seq![s],
        i < s.len() ==> spec_split_commas(s) == seq![s.take(i)] + spec_split_commas(
            s.skip(i + 1),
        ),
    decreases s.len(),
{
    lemma_split_commas_len(s);
    if s.len() == 0 {
        assert(spec_split_commas(s) =~~= seq![s]);
    } else if i == 0 {
        if i < s.len() {
            assert(s[0] == ',');
            assert(s.drop_first() =~= s.skip(1));
            assert(spec_split_commas(s) =~~= seq![s.take(0)] + spec_split_commas(s.skip(1)));
        }
    } else {
        let d = s.drop_first();
        lemma_split_commas_len(d);
        lemma_split_at_first_comma(d, i - 1);
        let rest = spec_split_commas(d);
        if i == s.len() {
            assert(rest == seq![d]);
            assert(seq![s[0]] + rest[0] =~= s);
            assert(spec_split_commas(s) =~= seq![s]);
        } else {
            assert(rest == seq![d.take(i - 1)] + spec_split_commas(d.skip(i)));
            assert(d.skip(i) =~= s.skip(i + 1));
            assert(rest[0] == d.take(i - 1));
            assert(seq![s[0]] + d.take(i - 1) =~= s.take(i));
            assert(rest.update(0, s.take(i)) =~= seq![s.take(i)] + spec_split_commas(
                s.skip(i + 1),
            ));
        }
    }
}

/// Splits a comma-delimited string into its raw pieces, untrimmed.
fn split_commas(s: &str) -> (r: Vec<String>)
    ensures
        r.deep_view() == spec_split_commas(s@),
    decreases s@.len(),
{
    let len = s.unicode_len();
    let mut i: usize = 0;
    while i < len && s.get_char(i) != ','
        invariant
            i <= len,
            len == s@.len(),
            forall|k: int| 0 <= k < i ==> s@[k] != ',',
        decreases len - i,
    {
        i += 1;
    }
    proof {
        lemma_split_at_first_comma(s@, i as int);
    }
    if i == len {
        let mut r: Vec<String> = Vec::new();
        r.push(String::from_str(s));
        proof {
            assert(r.deep_view() =~= seq![s@]);
        }
        r
    } else {
        let piece = s.substring_char(0, i);
        let rest_str = s.substring_char(i + 1, len);
        proof {
            assert(piece@ =~= s@.take(i as int));
            assert(rest_str@ =~= s@.skip(i + 1));
        }
        let mut r = split_commas(rest_str);
        let ghost before = r.deep_view();
        r.insert(0, String::from_str(piece));
        proof {
            assert(r.deep_view() =~= seq![piece@] + before);
        }
        r
    }
}

/// The user-facing split of a delimited route string: nothing for the
/// empty string, else the comma-separated pieces, each trimmed of
/// surrounding whitespace.
pub open spec fn spec_split_routes(s: Seq<char>) -> Seq<Seq<char>> {
    if s.len() == 0 {
        Seq::empty()
    } else {
        spec_split_commas(s).map_values(|p: Seq<char>| trim_spec(p))
    }
}

/// Splits the user-facing route string back into a route list: empty
/// for the empty string, else the comma-separated pieces, trimmed.
pub fn split_routes(s: &str) -> (r: Vec<String>)
    ensures
        r.deep_view() == spec_split_routes(s@),
{
    if s.unicode_len() == 0 {
        let r: Vec<String> = Vec::new();
        proof {
            assert(r.deep_view() =~= spec_split_routes(s@));
        }
        return r;
    }
    let pieces = split_commas(s);
    let ghost pdv = pieces.deep_view();
    let mut r: Vec<String> = Vec::new();
    let mut i: usize = 0;
    while i < pieces.len()
        invariant
            i <= pieces.len(),
            pdv == pieces.deep_view(),
            pdv.len() == pieces.len(),
            r.deep_view() == pdv.take(i as int).map_values(|p: Seq<char>| trim_spec(p)),
        decreases pieces.len() - i,
    {
        let ghost before = r.deep_view();
        r.push(trim_text(pieces[i].as_str()));
        proof {
            assert(r.deep_view() =~= before.push(trim_spec(pdv[i as int])));
            assert(pdv.take(i + 1).map_values(|p: Seq<char>| trim_spec(p)) =~= before.push(
                trim_spec(pdv[i as int]),
            ));
        }
        i += 1;
    }
    proof {
        assert(pdv.take(pieces.len() as int) =~= pdv);
    }
    r
}

/// A route entry as this crate itself writes them: non-empty, holding
/// no comma, and carrying no surrounding whitespace.
pub open spec fn route_entry_plain(s: Seq<char>) -> bool {
    &&& s.len() > 0
    &&& !s.contains(',')
    &&& trim_spec(s) == s
}

/// Joining at least two entries is the first entry, a comma, and the
/// joining of the rest.
proof fn lemma_join_front(rs: Seq<Seq<char>>)
    requires
        rs.len() >= 2,
    ensures
        spec_join_commas(rs) == rs[0] + ","@ + spec_join_commas(rs.drop_first()),
    decreases rs.len(),
{
    let c = ","@;
    if rs.len() == 2 {
        assert(rs.drop_last() =~~= seq![rs[0]]);
        assert(rs.drop_first() =~~= seq![rs[1]]);
        assert(spec_join_commas(seq![rs[0]]) == rs[0]);
        assert(spec_join_commas(seq![rs[1]]) == rs[1]);
        assert(spec_join_commas(rs) == spec_join_commas(rs.drop_last()) + c + rs.last());
    } else {
        let d = rs.drop_last();
        lemma_join_front(d);
        assert(rs.drop_first().drop_last() =~~= d.drop_first());
        assert(rs.drop_first().last() == rs.last());
        assert(spec_join_commas(rs.drop_first()) == spec_join_commas(d.drop_first()) + c
            + rs.last());
        assert((rs[0] + c + spec_join_commas(d.drop_first())) + c + rs.last() =~= rs[0] + c + (
        spec_join_commas(d.drop_first()) + c + rs.last()));
    }
}

/// Splitting the joining of comma-free entries gives the entries back.
proof fn lemma_split_join(rs: Seq<Seq<char>>)
    requires
        rs.len() > 0,
        forall|i: int| 0 <= i < rs.len() ==> !(#[trigger] rs[i]).contains(','),
    ensures
        spec_split_commas(spec_join_commas(rs)) == rs,
    decreases rs.len(),
{
    broadcast use vstd::string::group_string_axioms;

    reveal_strlit(",");
    let s = spec_join_commas(rs);
    assert(","@.len() == 1);
    if rs.len() == 1 {
        assert(s == rs[0]);
        assert forall|k: int| 0 <= k < s.len() implies s[k] != ',' by {
            assert(!rs[0].contains(','));
        }
        lemma_split_at_first_comma(s, s.len() as int);
        assert(spec_split_commas(s) =~~= rs);
    } else {
        lemma_join_front(rs);
        let a = rs[0];
        let rest = spec_join_commas(rs.drop_first());
        assert(s == a + ","@ + rest);
        assert(s[a.len() as int] == ',') by {
            assert((a + ","@)[a.len() as int] == ',');
        }
        assert forall|k: int| 0 <= k < a.len() implies s[k] != ',' by {
            assert(s[k] == a[k]);
            assert(!a.contains(','));
        }
        lemma_split_at_first_comma(s, a.len() as int);
        assert(s.take(a.len() as int) =~= a);
        assert(s.skip(a.len() as int + 1) =~= rest);
        assert forall|i: int| 0 <= i < rs.drop_first().len() implies !(
        #[trigger] rs.drop_first()[i]).contains(',') by {
            assert(rs.drop_first()[i] == rs[i + 1]);
        }
        lemma_split_join(rs.drop_first());
        assert(spec_split_commas(s) =~~= seq![a] + rs.drop_first());
        assert(seq![a] + rs.drop_first() =~~= rs);
    }
}

/// Reading back what was written, through the string boundary: a route
/// list of plain entries — as this crate itself writes them — joined
/// into the delimited string and split apart again is the same list.
pub proof fn lemma_route_string_round_trip(rs: Seq<Seq<char>>)
    requires
        rs.len() > 0,
        forall|i: int| 0 <= i < rs.len() ==> #[trigger] route_entry_plain(rs[i]),
    ensures
        spec_split_routes(spec_join_commas(rs)) == rs,
{
    let s = spec_join_commas(rs);
    assert forall|i: int| 0 <= i < rs.len() implies !(#[trigger] rs[i]).contains(',') by {
        assert(route_entry_plain(rs[i]));
    }
    lemma_split_join(rs);
    assert(s.len() > 0) by {
        if rs.len() == 1 {
            assert(route_entry_plain(rs[0]));
        } else {
            lemma_join_front(rs);
        }
    }
    assert(spec_split_routes(s) =~~= rs) by {
        assert forall|i: int| 0 <= i < rs.len() implies trim_spec(
            #[trigger] spec_split_commas(s)[i],
        ) == rs[i] by {
            assert(route_entry_plain(rs[i]));
        }
    }
}

/// The full `advertise-routes` value written when the exit-node bit is
/// set: the current user-facing route string split apart, the universal
/// default entries added or removed, and the list joined back together.
pub fn exit_node_routes_arg(current: &str, enable: bool) -> (r: String)
    ensures
        r@ == spec_join_commas(
            spec_routes_with_exit(spec_split_routes(current@), enable),
        ),
{
    let list = split_routes(current);
    let newlist = routes_with_exit(list, enable);
    join_routes(&newlist)
}

/// The full `advertise-routes` value written when the user edits the
/// route list directly: both universal default entries are re-appended
/// whenever exit-node advertisement is currently enabled, so the edit
/// never silently disables exit-node mode.
pub fn user_routes_arg(user: &str, exit_active: bool) -> (r: String)
    ensures
        !exit_active ==> r@ == user@,
        exit_active && user@.len() == 0 ==> r@ == "0.0.0.0/0,::/0"@,
        exit_active && user@.len() > 0 ==> r@ == user@ + ",0.0.0.0/0,::/0"@,
{
    if !exit_active {
        String::from_str(user)
    } else if user.is_empty() {
        String::from_str("0.0.0.0/0,::/0")
    } else {
        let mut s = String::from_str(user);
        s.append(",0.0.0.0/0,::/0");
        s
    }
}

/// The full `advertise-routes` value written when the exit-node bit is
/// toggled: a read-modify-write against the preference set as freshly
/// queried at the time of the call, so concurrent route edits are not
/// clobbered.  A failed read recomputes from an empty list.
pub fn exit_node_write_arg(current: Result<TailscalePrefs, DaemonError>, enable: bool) -> (r:
    String)
    ensures
        r@ == spec_join_commas(
            spec_routes_with_exit(
                spec_split_routes(
                    match current {
                        Ok(p) => p.advertise_routes@,
                        Err(_) => Seq::empty(),
                    },
                ),
                enable,
            ),
        ),
{
    let routes = match current {
        Ok(p) => p.advertise_routes,
        Err(_) => String::new(),
    };
    exit_node_routes_arg(routes.as_str(), enable)
}

/// The full `advertise-routes` value written for a user's route edit:
/// both universal default entries are re-appended whenever the freshly
/// queried preference set has exit-node mode on, so the edit never
/// silently disables it.  A failed read counts as off.
pub fn routes_write_arg(user: &str, current: Result<TailscalePrefs, DaemonError>) -> (r: String)
    ensures
        ({
            let active = current matches Ok(p) && p.advertise_exit_node;
            &&& (!active ==> r@ == user@)
            &&& (active && user@.len() == 0 ==> r@ == "0.0.0.0/0,::/0"@)
            &&& (active && user@.len() > 0 ==> r@ == user@ + ",0.0.0.0/0,::/0"@)
        }),
{
    let active = match current {
        Ok(p) => p.advertise_exit_node,
        Err(_) => false,
    };
    user_routes_arg(user, active)
}

/// The read path of the reconciler, over the raw route list as the
/// daemon reports it (absent lists read as empty): the exit-node bit
/// and the user-facing delimited route string.
pub fn reconcile_read(raw: &Option<Vec<String>>) -> (r: (bool, String))
    ensures
        match raw {
            Some(rs) => r.0 == spec_exit_advertised(rs.deep_view()) && r.1@ == spec_join_commas(
                spec_nondefault(rs.deep_view()),
            ),
            None => r.0 == false && r.1@ == Seq::<char>::empty(),
        },
{
    match raw {
        Some(rs) => {
            let active = exit_node_advertised(rs);
            let stripped = strip_default_routes(rs);
            (active, join_routes(&stripped))
        },
        None => (false, String::new()),
    }
}

/// Re-reading directly after a write reproduces what was written: the
/// raw list produced by the write path reports the exit-node bit that
/// was set, and its user-facing route list is exactly the one the raw
/// list had before the write.
pub proof fn lemma_reconcile_round_trip(rs: Seq<Seq<char>>)
    ensures
        spec_exit_advertised(spec_routes_with_exit(rs, true)),
        !spec_exit_advertised(spec_routes_with_exit(rs, false)),
        spec_nondefault(spec_routes_with_exit(rs, true)) == spec_nondefault(rs),
        spec_nondefault(spec_routes_with_exit(rs, false)) == spec_nondefault(rs),
{
    let pred = |s: Seq<char>| !is_default_route(s);
    let on = spec_routes_with_exit(rs, true);
    // enabling leaves at least one universal default entry in the list
    if rs.contains("0.0.0.0/0"@) {
        let i = choose|i: int| 0 <= i < rs.len() && rs[i] == "0.0.0.0/0"@;
        assert(is_default_route(on[i]));
    } else {
        let with4 = rs.push("0.0.0.0/0"@);
        assert(with4[rs.len() as int] == "0.0.0.0/0"@);
        if with4.contains("::/0"@) {
            assert(is_default_route(on[rs.len() as int]));
        } else {
            assert(on[rs.len() as int] == "0.0.0.0/0"@);
            assert(is_default_route(on[rs.len() as int]));
        }
    }
    // disabling leaves only entries that fail the default-route test
    broadcast use vstd::seq_lib::group_filter_ensures;

    assert forall|i: int| 0 <= i < spec_nondefault(rs).len() implies !is_default_route(
        spec_nondefault(rs)[i],
    ) by {
        assert(pred(rs.filter(pred)[i]));
    }
    // the user-facing list survives enabling: appended default entries
    // are filtered right back out
    let with4 = if rs.contains("0.0.0.0/0"@) {
        rs
    } else {
        rs.push("0.0.0.0/0"@)
    };
    if !rs.contains("0.0.0.0/0"@) {
        lemma_filter_push(rs, pred, "0.0.0.0/0"@);
    }
    assert(with4.filter(pred) == rs.filter(pred));
    if !with4.contains("::/0"@) {
        lemma_filter_push(with4, pred, "::/0"@);
    }
    assert(on.filter(pred) == rs.filter(pred));
    // and survives disabling: filtering is idempotent
    assert forall|i: int| 0 <= i < spec_nondefault(rs).len() implies pred(
        #[trigger] spec_nondefault(rs)[i],
    ) by {
        assert(pred(rs.filter(pred)[i]));
    }
    lemma_filter_all(spec_nondefault(rs), pred);
}

/// Enabling exit-node advertisement twice in a row changes nothing the
/// second time: no duplicate universal default entries appear.
pub proof fn lemma_enable_exit_idempotent(rs: Seq<Seq<char>>)
    ensures
        spec_routes_with_exit(spec_routes_with_exit(rs, true), true) == spec_routes_with_exit(
            rs,
            true,
        ),
{
    let on = spec_routes_with_exit(rs, true);
    let with4 = if rs.contains("0.0.0.0/0"@) {
        rs
    } else {
        rs.push("0.0.0.0/0"@)
    };
    // the once-enabled list holds both universal default entries
    if rs.contains("0.0.0.0/0"@) {
        let i = choose|i: int| 0 <= i < rs.len() && rs[i] == "0.0.0.0/0"@;
        assert(on[i] == "0.0.0.0/0"@);
        assert(on.contains("0.0.0.0/0"@));
    } else {
        assert(with4[rs.len() as int] == "0.0.0.0/0"@);
        assert(on[rs.len() as int] == "0.0.0.0/0"@);
        assert(on.contains("0.0.0.0/0"@));
    }
    if with4.contains("::/0"@) {
        let i = choose|i: int| 0 <= i < with4.len() && with4[i] == "::/0"@;
        assert(on[i] == "::/0"@);
        assert(on.contains("::/0"@));
    } else {
        assert(on[with4.len() as int] == "::/0"@);
        assert(on.contains("::/0"@));
    }
}

} // verus!

