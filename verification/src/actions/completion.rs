//! Contextual completion: the declarative rule table mapping (host
//! language, callee name, leaf node kind) to a completion provider, the two
//! providers reading the cached snapshot, and the query entry points on a
//! buffer. At most one rule can match any triple; an unknown language,
//! callee or kind yields none, never an error.

use vstd::prelude::*;

use crate::actions::snippets::snippet_candidates;
use crate::buffer::Buffer;
use crate::context::{resolve_context_spec, Context, ContextV};
use crate::laravel::project_config::ProjectConfig;
use crate::laravel::routes::{route_desc_spec, route_views, RouteV};
use crate::laravel::tables::{table_desc_spec, table_views, TableV};
use crate::syntax_tree::{NodeKind, NodeV, Point, PointV};
use crate::types::languages::HostLanguage;

verus! {

/// What a completion candidate is shown as.
#[derive(Clone, Copy, PartialEq, Eq, Structural, Debug)]
pub enum CandidateKind {
    Folder,
    Property,
    Snippet,
}

/// One completion candidate handed back to the editor.
pub struct Candidate {
    pub label: String,
    pub detail: String,
    pub kind: CandidateKind,
    pub insert_text: Option<String>,
}

/// The mathematical value of a `Candidate`.
pub struct CandidateV {
    pub label: Seq<char>,
    pub detail: Seq<char>,
    pub kind: CandidateKind,
    pub insert_text: Option<Seq<char>>,
}

impl View for Candidate {
    type V = CandidateV;

    open spec fn view(&self) -> CandidateV {
        CandidateV {
            label: self.label@,
            detail: self.detail@,
            kind: self.kind,
            insert_text: match self.insert_text {
                Some(s) => Some(s@),
                None => None,
            },
        }
    }
}

/// The values of a candidate list.
pub open spec fn cand_views(s: Seq<Candidate>) -> Seq<CandidateV> {
    s.map_values(|c: Candidate| c@)
}

/// The identifier of a completion provider.
#[derive(Clone, Copy, PartialEq, Eq, Structural, Debug)]
pub enum ProviderId {
    Routes,
    Tables,
}

/// One completion rule: for this host language, this callee name and this
/// leaf node kind, run this provider.
pub struct RuleV {
    pub language: HostLanguage,
    pub callee: Seq<char>,
    pub leaf_kind: NodeKind,
    pub provider: ProviderId,
}

/// The declarative rule table: `route` and `table` calls complete from the
/// cached routes and tables, in both cases only while the cursor stands in
/// a string argument.
pub open spec fn rule_table() -> Seq<RuleV> {
    seq![
        RuleV {
            language: HostLanguage::Php,
            callee: "route"@,
            leaf_kind: NodeKind::StringContent,
            provider: ProviderId::Routes,
        },
        RuleV {
            language: HostLanguage::Php,
            callee: "table"@,
            leaf_kind: NodeKind::StringContent,
            provider: ProviderId::Tables,
        },
    ]
}

/// Whether one rule matches a query triple.
pub open spec fn rule_matches(
    r: RuleV,
    lang: HostLanguage,
    callee: Seq<char>,
    leaf: NodeKind,
) -> bool {
    r.language == lang && r.callee == callee && r.leaf_kind == leaf
}

/// Scan a rule list in order for the first match.
pub open spec fn lookup_scan(
    rs: Seq<RuleV>,
    lang: HostLanguage,
    callee: Seq<char>,
    leaf: NodeKind,
) -> Option<ProviderId>
    decreases rs.len(),
{
    if rs.len() == 0 {
        None
    } else if rule_matches(rs[0], lang, callee, leaf) {
        Some(rs[0].provider)
    } else {
        lookup_scan(rs.subrange(1, rs.len() as int), lang, callee, leaf)
    }
}

/// The provider for a query triple; none without a resolved leaf kind.
pub open spec fn lookup_spec(
    lang: HostLanguage,
    callee: Seq<char>,
    leaf: Option<NodeKind>,
) -> Option<ProviderId> {
    match leaf {
        None => None,
        Some(k) => lookup_scan(rule_table(), lang, callee, k),
    }
}

/// At most one rule of the table matches any query triple, so the order of
/// the scan never decides: an ambiguous table would be a configuration
/// error, and this table has none.
pub proof fn lemma_rule_table_unambiguous(
    lang: HostLanguage,
    callee: Seq<char>,
    leaf: NodeKind,
    i: int,
    j: int,
)
    requires
        0 <= i < rule_table().len(),
        0 <= j < rule_table().len(),
        rule_matches(rule_table()[i], lang, callee, leaf),
        rule_matches(rule_table()[j], lang, callee, leaf),
    ensures
        i == j,
{
    reveal_strlit("route");
    reveal_strlit("table");
    assert(rule_table()[0].callee != rule_table()[1].callee) by {
        assert(("route"@)[0] == 'r');
        assert(("table"@)[0] == 't');
    }
}

/// Select the provider for a query triple.
pub fn get_completion_function(
    language: &HostLanguage,
    function: &str,
    ctx_kind: Option<NodeKind>,
) -> (r: Option<ProviderId>)
    ensures
        r == lookup_spec(*language, function@, ctx_kind),
{
    let k = match ctx_kind {
        Some(k) => k,
        None => {
            return None;
        },
    };
    match language {
        HostLanguage::Php => {},
    }
    let f = function.to_owned();
    let is_route = f == String::from_str("route");
    let is_table = f == String::from_str("table");
    proof {
        assert(*language == HostLanguage::Php);
        let rt = rule_table();
        let tail = rt.subrange(1, 2);
        assert(tail[0] == rt[1]);
        assert(tail.len() == 1);
        if is_route && k == NodeKind::StringContent {
            assert(rule_matches(rt[0], *language, function@, k));
            assert(lookup_scan(rt, *language, function@, k) == Some(ProviderId::Routes));
        } else if is_table && k == NodeKind::StringContent {
            reveal_strlit("route");
            reveal_strlit("table");
            assert(("route"@)[0] == 'r');
            assert(("table"@)[0] == 't');
            assert(!rule_matches(rt[0], *language, function@, k));
            assert(rule_matches(rt[1], *language, function@, k));
            assert(lookup_scan(tail, *language, function@, k) == Some(ProviderId::Tables));
            assert(lookup_scan(rt, *language, function@, k) == Some(ProviderId::Tables));
        } else {
            assert(!rule_matches(rt[0], *language, function@, k));
            assert(!rule_matches(rt[1], *language, function@, k));
            assert(lookup_scan(tail.subrange(1, 1), *language, function@, k) is None);
            assert(lookup_scan(tail, *language, function@, k) is None);
            assert(lookup_scan(rt, *language, function@, k) is None);
        }
    }
    if k == NodeKind::StringContent && is_route {
        Some(ProviderId::Routes)
    } else if k == NodeKind::StringContent && is_table {
        Some(ProviderId::Tables)
    } else {
        None
    }
}

/// The candidates the routes provider offers: one per named route, labelled
/// with the route's name and described by its method; unnamed routes are
/// left out.
pub open spec fn route_candidates_spec(rs: Seq<RouteV>) -> Seq<CandidateV>
    decreases rs.len(),
{
    if rs.len() == 0 {
        Seq::empty()
    } else {
        let head = route_candidates_spec(rs.drop_last());
        match rs.last().name {
            Some(n) => head.push(
                CandidateV {
                    label: n,
                    detail: route_desc_spec(rs.last().method),
                    kind: CandidateKind::Folder,
                    insert_text: None,
                },
            ),
            None => head,
        }
    }
}

/// The candidates the tables provider offers: one per table.
pub open spec fn table_candidates_spec(ts: Seq<TableV>) -> Seq<CandidateV>
    decreases ts.len(),
{
    if ts.len() == 0 {
        Seq::empty()
    } else {
        table_candidates_spec(ts.drop_last()).push(
            CandidateV {
                label: ts.last().table,
                detail: table_desc_spec(ts.last().table),
                kind: CandidateKind::Property,
                insert_text: None,
            },
        )
    }
}

/// The routes provider: a pure function of the cached snapshot.
pub fn complete_routes(config: &ProjectConfig) -> (r: Vec<Candidate>)
    ensures
        cand_views(r@) == route_candidates_spec(route_views(config.routes@)),
{
    let mut out: Vec<Candidate> = Vec::new();
    let n = config.routes.len();
    let mut i: usize = 0;
    while i < n
        invariant
            n == config.routes@.len(),
            i <= n,
            cand_views(out@) == route_candidates_spec(
                route_views(config.routes@).subrange(0, i as int),
            ),
        decreases n - i,
    {
        let ghost pre = out@;
        let route = &config.routes[i];
        match &route.name {
            Some(nm) => {
                out.push(
                    Candidate {
                        label: nm.clone(),
                        detail: route.route_description(),
                        kind: CandidateKind::Folder,
                        insert_text: None,
                    },
                );
            },
            None => {},
        }
        proof {
            let rv = route_views(config.routes@);
            assert(rv[i as int] == config.routes@[i as int]@);
            assert(rv.subrange(0, i + 1).drop_last() =~= rv.subrange(0, i as int));
            assert(rv.subrange(0, i + 1).last() == rv[i as int]);
            if route@.name is Some {
                assert(cand_views(out@) =~= cand_views(pre).push(out@.last()@));
                assert(cand_views(out@) =~= route_candidates_spec(rv.subrange(0, i + 1)));
            } else {
                assert(cand_views(out@) =~= route_candidates_spec(rv.subrange(0, i + 1)));
            }
        }
        i = i + 1;
    }
    proof {
        assert(route_views(config.routes@).subrange(0, n as int) =~= route_views(config.routes@));
    }
    out
}

/// The tables provider: a pure function of the cached snapshot.
pub fn complete_tables(config: &ProjectConfig) -> (r: Vec<Candidate>)
    ensures
        cand_views(r@) == table_candidates_spec(table_views(config.tables.tables@)),
{
    let mut out: Vec<Candidate> = Vec::new();
    let n = config.tables.tables.len();
    let mut i: usize = 0;
    while i < n
        invariant
            n == config.tables.tables@.len(),
            i <= n,
            cand_views(out@) == table_candidates_spec(
                table_views(config.tables.tables@).subrange(0, i as int),
            ),
        decreases n - i,
    {
        let ghost pre = out@;
        let table = &config.tables.tables[i];
        out.push(
            Candidate {
                label: table.table.clone(),
                detail: table.table_description(),
                kind: CandidateKind::Property,
                insert_text: None,
            },
        );
        proof {
            let tv = table_views(config.tables.tables@);
            assert(tv[i as int] == config.tables.tables@[i as int]@);
            assert(tv.subrange(0, i + 1).drop_last() =~= tv.subrange(0, i as int));
            assert(tv.subrange(0, i + 1).last() == tv[i as int]);
            assert(cand_views(out@) =~= cand_views(pre).push(out@.last()@));
            assert(cand_views(out@) =~= table_candidates_spec(tv.subrange(0, i + 1)));
        }
        i = i + 1;
    }
    proof {
        assert(table_views(config.tables.tables@).subrange(0, n as int) =~= table_views(
            config.tables.tables@,
        ));
    }
    out
}

/// What a contextual completion query answers, as a function of the host
/// language, the tree, the point and the snapshot: none when the cursor
/// stands in no call or no rule matches, else the matched provider's list.
pub open spec fn complete_spec(
    lang: HostLanguage,
    t: Seq<NodeV>,
    p: PointV,
    routes: Seq<RouteV>,
    tables: Seq<TableV>,
) -> Option<Seq<CandidateV>> {
    match resolve_context_spec(t, p) {
        ContextV::NoContext => None,
        ContextV::CallContext { callee, form, leaf_kind } => match lookup_spec(
            lang,
            callee,
            Some(leaf_kind),
        ) {
            None => None,
            Some(ProviderId::Routes) => Some(route_candidates_spec(routes)),
            Some(ProviderId::Tables) => Some(table_candidates_spec(tables)),
        },
    }
}

/// What a completion query finally hands the editor: the contextual list
/// when there is one and it is not empty, else the static snippet list.
pub open spec fn completion_outcome_spec(
    lang: HostLanguage,
    t: Seq<NodeV>,
    p: PointV,
    routes: Seq<RouteV>,
    tables: Seq<TableV>,
) -> Seq<CandidateV> {
    match complete_spec(lang, t, p, routes, tables) {
        Some(cs) => if cs.len() > 0 {
            cs
        } else {
            snippet_candidates()
        },
        None => snippet_candidates(),
    }
}

impl Buffer {
    /// Answer a contextual completion query against the cached snapshot:
    /// resolve the cursor's context, select a provider through the rule
    /// table, and run it. None when the cursor stands in no call or no rule
    /// matches; the caller then falls back to the static snippets.
    pub fn complete(&self, point: Point, config: &ProjectConfig) -> (r: Option<Vec<Candidate>>)
        requires
            self.wf(),
        ensures
            match r {
                Some(v) => complete_spec(
                    self.language,
                    self.tree@,
                    point@,
                    route_views(config.routes@),
                    table_views(config.tables.tables@),
                ) == Some(cand_views(v@)),
                None => complete_spec(
                    self.language,
                    self.tree@,
                    point@,
                    route_views(config.routes@),
                    table_views(config.tables.tables@),
                ) is None,
            },
    {
        match self.resolve_context(point) {
            Context::NoContext => None,
            Context::CallContext { callee, form: _, leaf_kind } => {
                match get_completion_function(&self.language, callee.as_str(), Some(leaf_kind)) {
                    None => None,
                    Some(ProviderId::Routes) => Some(complete_routes(config)),
                    Some(ProviderId::Tables) => Some(complete_tables(config)),
                }
            },
        }
    }

    /// Answer a completion query, falling back to the static snippet list
    /// whenever no contextual match exists or the matched provider has
    /// nothing to offer. The answer is never empty.
    pub fn complete_or_snippets(&self, point: Point, config: &ProjectConfig) -> (r: Vec<Candidate>)
        requires
            self.wf(),
        ensures
            cand_views(r@) == completion_outcome_spec(
                self.language,
                self.tree@,
                point@,
                route_views(config.routes@),
                table_views(config.tables.tables@),
            ),
            r@.len() > 0,
    {
        let answer = match self.complete(point, config) {
            Some(cs) => {
                if cs.len() > 0 {
                    cs
                } else {
                    self.get_snippets()
                }
            },
            None => self.get_snippets(),
        };
        answer
    }
}

} // verus!
