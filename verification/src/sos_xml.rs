//! The Texas Secretary of State XML export read into elections, races and
//! candidates: `roxmltree` parses the document into its nodes in document
//! order, and the `ElectionResult > Race > Candidate` structure is picked
//! out of them here.
use vstd::prelude::*;
use crate::text::{chars_eq, chars_of, opt_view, string_of};
use crate::tx_results::{
    candidate_votes, parse_tx_sos_elements, rows_view, sos_rows, sos_votes_fit, votes_sum,
    SosCandidate, SosElectionResult, SosRace, StgTxResultRow,
};

verus! {

/// A node of a parsed XML document: its depth (the number of its
/// ancestors, itself included, so the document root has depth 1 and the
/// root element depth 2), its local name (empty for a node that is not an
/// element) and its attributes (local name and value, in document order).
pub type XmlNodeView = (int, Seq<char>, Seq<(Seq<char>, Seq<char>)>);

/// The nodes of the document `text`, in document order, or `None` where
/// `roxmltree` does not parse it.
pub uninterp spec fn xml_nodes(text: Seq<char>) -> Option<Seq<(int, Seq<char>, Seq<(Seq<char>, Seq<char>)>)>>;

pub open spec fn nodes_view(v: Seq<(usize, String, Vec<(String, String)>)>) -> Seq<XmlNodeView> {
    v.map_values(
        |n: (usize, String, Vec<(String, String)>)|
            (n.0 as int, n.1@, n.2@.map_values(|a: (String, String)| (a.0@, a.1@))),
    )
}

/// Calls `roxmltree::Document::parse` and, for each node of
/// `Document::root().descendants()`, reads the number of its `ancestors()`,
/// its `tag_name().name()` and its `attributes()`; named by `xml_nodes`.
/// Where the document does not parse, the parser's error as text
/// (`Display`), of which nothing is stated.
#[verifier::external_body]
fn parse_xml_nodes(text: &str) -> (r: Result<Vec<(usize, String, Vec<(String, String)>)>, String>)
    ensures
        match r {
            Ok(v) => xml_nodes(text@) == Some(nodes_view(v@)),
            Err(_) => xml_nodes(text@) is None,
        },
{
    let doc = roxmltree::Document::parse(text).map_err(|e| e.to_string())?;
    Ok(
        doc.root().descendants().map(
            |n| (n.ancestors().count(), n.tag_name().name().to_string(), n.attributes().map(|a| (a.name().to_string(), a.value().to_string())).collect()),
        ).collect(),
    )
}

/// The value of the first attribute called `name` (what `Node::attribute`
/// returns).
pub open spec fn attr(attrs: Seq<(Seq<char>, Seq<char>)>, name: Seq<char>) -> Option<Seq<char>>
    decreases attrs.len(),
{
    if attrs.len() == 0 {
        None
    } else {
        match attr(attrs.drop_last(), name) {
            Some(v) => Some(v),
            None => if attrs.last().0 == name {
                Some(attrs.last().1)
            } else {
                None
            },
        }
    }
}

pub ghost struct CandidateView {
    pub name: Option<Seq<char>>,
    pub key: Option<Seq<char>>,
    pub early_ballots_cast: Option<Seq<char>>,
    pub ballots_cast: Option<Seq<char>>,
    pub total_voters: Option<Seq<char>>,
}

pub ghost struct RaceView {
    pub name: Option<Seq<char>>,
    pub key: Option<Seq<char>>,
    pub precincts_reported: Option<Seq<char>>,
    pub precincts_participating: Option<Seq<char>>,
    pub candidates: Seq<CandidateView>,
}

pub ghost struct ElectionView {
    pub election_name: Option<Seq<char>>,
    pub election_date: Option<Seq<char>>,
    pub races: Seq<RaceView>,
}

pub open spec fn candidate_view(c: SosCandidate) -> CandidateView {
    CandidateView {
        name: opt_view(c.name),
        key: opt_view(c.key),
        early_ballots_cast: opt_view(c.early_ballots_cast),
        ballots_cast: opt_view(c.ballots_cast),
        total_voters: opt_view(c.total_voters),
    }
}

pub open spec fn candidates_view(cs: Seq<SosCandidate>) -> Seq<CandidateView> {
    cs.map_values(|c: SosCandidate| candidate_view(c))
}

pub open spec fn race_view(r: SosRace) -> RaceView {
    RaceView {
        name: opt_view(r.name),
        key: opt_view(r.key),
        precincts_reported: opt_view(r.precincts_reported),
        precincts_participating: opt_view(r.precincts_participating),
        candidates: candidates_view(r.candidates@),
    }
}

pub open spec fn election_view(e: SosElectionResult) -> ElectionView {
    ElectionView {
        election_name: opt_view(e.election_name),
        election_date: opt_view(e.election_date),
        races: e.races@.map_values(|r: SosRace| race_view(r)),
    }
}

pub open spec fn elections_view(es: Seq<SosElectionResult>) -> Seq<ElectionView> {
    es.map_values(|e: SosElectionResult| election_view(e))
}

/// The reading of the nodes so far: the elections read, the open election
/// (whose races so far are in it) and its open race.
pub ghost struct XmlScan {
    pub done: Seq<ElectionView>,
    pub election: Option<ElectionView>,
    pub race: Option<RaceView>,
}

/// The open race, if any, added to the open election.
pub open spec fn close_race(st: XmlScan) -> XmlScan {
    match (st.race, st.election) {
        (Some(r), Some(e)) => XmlScan { election: Some(ElectionView { races: e.races.push(r), ..e }), race: None, ..st },
        _ => XmlScan { race: None, ..st },
    }
}

/// The open election, if any (with its open race), added to those read.
pub open spec fn close_election(st: XmlScan) -> XmlScan {
    let s = close_race(st);
    match s.election {
        Some(e) => XmlScan { done: s.done.push(e), election: None, ..s },
        None => s,
    }
}

/// What one node does: a node at depth 3 or less closes the open election,
/// and an `ElectionResult` element at depth 3 (a child of the root element)
/// opens one; a node at depth 4 closes the open race, and a `Race` element
/// there (a child of the open election) opens one; a `Candidate` element at
/// depth 5 (a child of the open race) is one of its candidates. Document
/// order puts each element's descendants right after it, before anything
/// at its depth or above.
pub open spec fn xml_step(st: XmlScan, n: XmlNodeView) -> XmlScan {
    let (depth, name, attrs) = n;
    if depth <= 3 {
        let s = close_election(st);
        if depth == 3 && name == "ElectionResult"@ {
            XmlScan {
                election: Some(
                    ElectionView {
                        election_name: attr(attrs, "ElectionName"@),
                        election_date: attr(attrs, "ElectionDate"@),
                        races: seq![],
                    },
                ),
                ..s
            }
        } else {
            s
        }
    } else if depth == 4 {
        let s = close_race(st);
        if s.election is Some && name == "Race"@ {
            XmlScan {
                race: Some(
                    RaceView {
                        name: attr(attrs, "name"@),
                        key: attr(attrs, "key"@),
                        precincts_reported: attr(attrs, "precinctsReported"@),
                        precincts_participating: attr(attrs, "precinctsParticipating"@),
                        candidates: seq![],
                    },
                ),
                ..s
            }
        } else {
            s
        }
    } else if depth == 5 && name == "Candidate"@ {
        match st.race {
            Some(r) => XmlScan {
                race: Some(
                    RaceView {
                        candidates: r.candidates.push(
                            CandidateView {
                                name: attr(attrs, "name"@),
                                key: attr(attrs, "key"@),
                                early_ballots_cast: attr(attrs, "earlyBallotsCast"@),
                                ballots_cast: attr(attrs, "ballotsCast"@),
                                total_voters: attr(attrs, "totalVoters"@),
                            },
                        ),
                        ..r
                    },
                ),
                ..st
            },
            None => st,
        }
    } else {
        st
    }
}

pub open spec fn xml_scan(nodes: Seq<XmlNodeView>) -> XmlScan
    decreases nodes.len(),
{
    if nodes.len() == 0 {
        XmlScan { done: seq![], election: None, race: None }
    } else {
        xml_step(xml_scan(nodes.drop_last()), nodes.last())
    }
}

/// The elections of a document's nodes, each with its races and their
/// candidates, in document order.
pub open spec fn sos_elections(nodes: Seq<XmlNodeView>) -> Seq<ElectionView> {
    close_election(xml_scan(nodes)).done
}

struct ScanExec {
    done: Vec<SosElectionResult>,
    election: Option<SosElectionResult>,
    race: Option<SosRace>,
}

impl ScanExec {
    spec fn view(&self) -> XmlScan {
        XmlScan {
            done: elections_view(self.done@),
            election: match self.election {
                Some(e) => Some(election_view(e)),
                None => None,
            },
            race: match self.race {
                Some(r) => Some(race_view(r)),
                None => None,
            },
        }
    }
}

fn attr_exec(attrs: &Vec<(String, String)>, name: &str) -> (r: Option<String>)
    ensures
        opt_view(r) == attr(attrs@.map_values(|a: (String, String)| (a.0@, a.1@)), name@),
{
    let ghost av = attrs@.map_values(|a: (String, String)| (a.0@, a.1@));
    let n = chars_of(name);
    let mut k: usize = 0;
    while k < attrs.len()
        invariant
            k <= attrs.len(),
            av == attrs@.map_values(|a: (String, String)| (a.0@, a.1@)),
            n@ == name@,
            attr(av.take(k as int), name@) is None,
        decreases attrs.len() - k,
    {
        proof {
            assert(av.take(k + 1).drop_last() =~= av.take(k as int));
        }
        if chars_eq(&chars_of(attrs[k].0.as_str()), &n) {
            proof {
                lemma_attr_found(av, name@, k as int);
            }
            return Some(string_of(chars_of(attrs[k].1.as_str()).as_slice()));
        }
        k = k + 1;
    }
    assert(av.take(attrs.len() as int) =~= av);
    None
}

proof fn lemma_attr_found(attrs: Seq<(Seq<char>, Seq<char>)>, name: Seq<char>, k: int)
    requires
        0 <= k < attrs.len(),
        attr(attrs.take(k), name) is None,
        attrs[k].0 == name,
    ensures
        attr(attrs, name) == Some(attrs[k].1),
    decreases attrs.len(),
{
    if k < attrs.len() - 1 {
        assert(attrs.drop_last().take(k) =~= attrs.take(k));
        lemma_attr_found(attrs.drop_last(), name, k);
    } else {
        assert(attrs.drop_last() =~= attrs.take(k));
    }
}

fn close_race_exec(st: &mut ScanExec)
    ensures
        final(st)@ == close_race(old(st)@),
{
    let race = st.race.take();
    match race {
        Some(r) => {
            match st.election.take() {
                Some(mut e) => {
                    let ghost before = e.races@;
                    e.races.push(r);
                    proof {
                        assert(e.races@.map_values(|x: SosRace| race_view(x)) =~= before.map_values(
                            |x: SosRace| race_view(x),
                        ).push(race_view(r)));
                    }
                    st.election = Some(e);
                },
                None => {},
            }
        },
        None => {},
    }
}

fn close_election_exec(st: &mut ScanExec)
    ensures
        final(st)@ == close_election(old(st)@),
{
    close_race_exec(st);
    match st.election.take() {
        Some(e) => {
            let ghost before = st.done@;
            st.done.push(e);
            proof {
                assert(elections_view(st.done@) =~= elections_view(before).push(election_view(e)));
            }
        },
        None => {},
    }
}

fn xml_step_exec(st: &mut ScanExec, n: &(usize, String, Vec<(String, String)>))
    ensures
        final(st)@ == xml_step(old(st)@, (n.0 as int, n.1@, n.2@.map_values(|a: (String, String)| (a.0@, a.1@)))),
{
    let depth = n.0;
    let name = chars_of(n.1.as_str());
    if depth <= 3 {
        close_election_exec(st);
        if depth == 3 && chars_eq(&name, &chars_of("ElectionResult")) {
            st.election = Some(
                SosElectionResult {
                    election_name: attr_exec(&n.2, "ElectionName"),
                    election_date: attr_exec(&n.2, "ElectionDate"),
                    races: Vec::new(),
                },
            );
            proof {
                assert(st.election.unwrap().races@.map_values(|x: SosRace| race_view(x)) =~= Seq::<RaceView>::empty());
            }
        }
    } else if depth == 4 {
        close_race_exec(st);
        if st.election.is_some() && chars_eq(&name, &chars_of("Race")) {
            st.race = Some(
                SosRace {
                    name: attr_exec(&n.2, "name"),
                    key: attr_exec(&n.2, "key"),
                    precincts_reported: attr_exec(&n.2, "precinctsReported"),
                    precincts_participating: attr_exec(&n.2, "precinctsParticipating"),
                    candidates: Vec::new(),
                },
            );
            proof {
                assert(candidates_view(st.race.unwrap().candidates@) =~= Seq::<CandidateView>::empty());
            }
        }
    } else if depth == 5 && chars_eq(&name, &chars_of("Candidate")) {
        match st.race.take() {
            Some(mut r) => {
                let c = SosCandidate {
                    name: attr_exec(&n.2, "name"),
                    key: attr_exec(&n.2, "key"),
                    early_ballots_cast: attr_exec(&n.2, "earlyBallotsCast"),
                    ballots_cast: attr_exec(&n.2, "ballotsCast"),
                    total_voters: attr_exec(&n.2, "totalVoters"),
                };
                let ghost before = r.candidates@;
                let ghost cv = candidate_view(c);
                r.candidates.push(c);
                proof {
                    assert(candidates_view(r.candidates@) =~= candidates_view(before).push(cv));
                }
                st.race = Some(r);
            },
            None => {},
        }
    }
}

/// The elections of the XML export `content`, each with its races and
/// their candidates, in document order; the parser's message where the
/// document does not parse.
pub fn sos_elections_from_xml(content: &str) -> (r: Result<Vec<SosElectionResult>, String>)
    ensures
        match r {
            Ok(es) => xml_nodes(content@) matches Some(nodes) && elections_view(es@) == sos_elections(nodes),
            Err(_) => xml_nodes(content@) is None,
        },
{
    let nodes = parse_xml_nodes(content)?;
    let ghost nv = nodes_view(nodes@);
    let mut st = ScanExec { done: Vec::new(), election: None, race: None };
    proof {
        assert(elections_view(st.done@) =~= Seq::<ElectionView>::empty());
    }
    let mut i: usize = 0;
    while i < nodes.len()
        invariant
            i <= nodes.len(),
            nv == nodes_view(nodes@),
            st@ == xml_scan(nv.take(i as int)),
        decreases nodes.len() - i,
    {
        proof {
            assert(nv.take(i + 1).drop_last() =~= nv.take(i as int));
            assert(nv.take(i + 1).last() == nv[i as int]);
        }
        xml_step_exec(&mut st, &nodes[i]);
        i = i + 1;
    }
    assert(nv.take(nodes.len() as int) =~= nv);
    close_election_exec(&mut st);
    Ok(st.done)
}

/// A candidate's votes from its view: early plus election-day ballots.
pub open spec fn candidate_votes_of(c: CandidateView) -> int {
    (match c.early_ballots_cast {
        Some(s) => match crate::text::parse_u64_spec(crate::text::trim(s)) {
            Some(v) => v as int,
            None => 0,
        },
        None => 0,
    }) + (match c.ballots_cast {
        Some(s) => match crate::text::parse_u64_spec(crate::text::trim(s)) {
            Some(v) => v as int,
            None => 0,
        },
        None => 0,
    })
}

pub open spec fn votes_sum_of(cs: Seq<CandidateView>) -> int
    decreases cs.len(),
{
    if cs.len() == 0 {
        0
    } else {
        votes_sum_of(cs.drop_last()) + candidate_votes_of(cs.last())
    }
}

/// Every candidate's votes, and every race's total, fit in an `i64`.
pub open spec fn votes_fit_of(es: Seq<ElectionView>) -> bool {
    forall|i: int, j: int|
        0 <= i < es.len() && 0 <= j < es[i].races.len() ==> {
            let cs = (#[trigger] es[i].races[j]).candidates;
            &&& votes_sum_of(cs) <= i64::MAX
            &&& forall|k: int| 0 <= k < cs.len() ==> candidate_votes_of(#[trigger] cs[k]) <= i64::MAX
        }
}

proof fn lemma_votes_sum_by_view(cs: Seq<SosCandidate>)
    ensures
        votes_sum(cs) == votes_sum_of(candidates_view(cs)),
    decreases cs.len(),
{
    if cs.len() > 0 {
        lemma_votes_sum_by_view(cs.drop_last());
        assert(candidates_view(cs).drop_last() =~= candidates_view(cs.drop_last()));
    }
}

/// The vote counts of elections fit exactly when those of their views do.
proof fn lemma_votes_fit_by_view(es: Seq<SosElectionResult>)
    ensures
        sos_votes_fit(es) == votes_fit_of(elections_view(es)),
{
    let ev = elections_view(es);
    assert forall|i: int, j: int| 0 <= i < es.len() && 0 <= j < es[i].races@.len() implies (#[trigger] es[i].races@[j]).candidates@
        .len() == ev[i].races[j].candidates.len() && votes_sum(es[i].races@[j].candidates@) == votes_sum_of(
        ev[i].races[j].candidates,
    ) && (forall|k: int|
        0 <= k < es[i].races@[j].candidates@.len() ==> candidate_votes(#[trigger] es[i].races@[j].candidates@[k])
            == candidate_votes_of(ev[i].races[j].candidates[k])) by {
        lemma_votes_sum_by_view(es[i].races@[j].candidates@);
    }
    if sos_votes_fit(es) {
        assert forall|i: int, j: int| 0 <= i < ev.len() && 0 <= j < ev[i].races.len() implies {
            let cs = (#[trigger] ev[i].races[j]).candidates;
            &&& votes_sum_of(cs) <= i64::MAX
            &&& forall|k: int| 0 <= k < cs.len() ==> candidate_votes_of(#[trigger] cs[k]) <= i64::MAX
        } by {
            assert(es[i].races@[j].candidates@.len() == ev[i].races[j].candidates.len());
            assert forall|k: int| 0 <= k < ev[i].races[j].candidates.len() implies candidate_votes_of(
                #[trigger] ev[i].races[j].candidates[k],
            ) <= i64::MAX by {
                assert(candidate_votes(es[i].races@[j].candidates@[k]) <= i64::MAX);
            }
        }
    }
    if votes_fit_of(ev) {
        assert forall|i: int, j: int| 0 <= i < es.len() && 0 <= j < es[i].races@.len() implies {
            let cs = (#[trigger] es[i].races@[j]).candidates@;
            &&& votes_sum(cs) <= i64::MAX
            &&& forall|k: int| 0 <= k < cs.len() ==> candidate_votes(#[trigger] cs[k]) <= i64::MAX
        } by {
            assert(ev[i].races[j].candidates.len() == es[i].races@[j].candidates@.len());
            assert forall|k: int| 0 <= k < es[i].races@[j].candidates@.len() implies candidate_votes(
                #[trigger] es[i].races@[j].candidates@[k],
            ) <= i64::MAX by {
                assert(candidate_votes_of(ev[i].races[j].candidates[k]) <= i64::MAX);
            }
        }
    }
}

fn candidate_votes_checked(c: &SosCandidate) -> (r: Option<i64>)
    ensures
        match r {
            Some(v) => v == candidate_votes(*c),
            None => candidate_votes(*c) > i64::MAX,
        },
{
    let early = match crate::tx_results::attr_parse_u64(&c.early_ballots_cast) {
        Some(v) => v,
        None => 0,
    };
    let day = match crate::tx_results::attr_parse_u64(&c.ballots_cast) {
        Some(v) => v,
        None => 0,
    };
    match early.checked_add(day) {
        Some(t) => if t <= 9223372036854775807 {
            Some(t as i64)
        } else {
            None
        },
        None => None,
    }
}

/// Whether every candidate's votes, and every race's total, of the
/// elections fit in an `i64`.
pub fn sos_votes_fit_exec(es: &Vec<SosElectionResult>) -> (r: bool)
    ensures
        r == sos_votes_fit(es@),
{
    let mut i: usize = 0;
    while i < es.len()
        invariant
            i <= es.len(),
            forall|a: int, b: int|
                0 <= a < i && 0 <= b < es@[a].races@.len() ==> {
                    let cs = (#[trigger] es@[a].races@[b]).candidates@;
                    &&& votes_sum(cs) <= i64::MAX
                    &&& forall|k: int| 0 <= k < cs.len() ==> candidate_votes(#[trigger] cs[k]) <= i64::MAX
                },
        decreases es.len() - i,
    {
        let races = &es[i].races;
        let mut j: usize = 0;
        while j < races.len()
            invariant
                i < es.len(),
                j <= races.len(),
                races == &es@[i as int].races,
                forall|a: int, b: int|
                    0 <= a < i && 0 <= b < es@[a].races@.len() ==> {
                        let cs = (#[trigger] es@[a].races@[b]).candidates@;
                        &&& votes_sum(cs) <= i64::MAX
                        &&& forall|k: int| 0 <= k < cs.len() ==> candidate_votes(#[trigger] cs[k]) <= i64::MAX
                    },
                forall|b: int|
                    0 <= b < j ==> {
                        let cs = (#[trigger] es@[i as int].races@[b]).candidates@;
                        &&& votes_sum(cs) <= i64::MAX
                        &&& forall|k: int| 0 <= k < cs.len() ==> candidate_votes(#[trigger] cs[k]) <= i64::MAX
                    },
            decreases races.len() - j,
        {
            let cs = &races[j].candidates;
            let mut total: i64 = 0;
            let mut k: usize = 0;
            while k < cs.len()
                invariant
                    i < es.len(),
                    j < races.len(),
                    races == &es@[i as int].races,
                    cs == &races@[j as int].candidates,
                    forall|a: int, b: int|
                        0 <= a < i && 0 <= b < es@[a].races@.len() ==> {
                            let cs = (#[trigger] es@[a].races@[b]).candidates@;
                            &&& votes_sum(cs) <= i64::MAX
                            &&& forall|k: int| 0 <= k < cs.len() ==> candidate_votes(#[trigger] cs[k]) <= i64::MAX
                        },
                    forall|b: int|
                        0 <= b < j ==> {
                            let cs = (#[trigger] es@[i as int].races@[b]).candidates@;
                            &&& votes_sum(cs) <= i64::MAX
                            &&& forall|k: int| 0 <= k < cs.len() ==> candidate_votes(#[trigger] cs[k]) <= i64::MAX
                        },
                    k <= cs.len(),
                    total == votes_sum(cs@.take(k as int)),
                    0 <= total,
                    forall|m: int| 0 <= m < k ==> candidate_votes(#[trigger] cs@[m]) <= i64::MAX,
                decreases cs.len() - k,
            {
                proof {
                    assert(cs@.take(k + 1).drop_last() =~= cs@.take(k as int));
                }
                let v = match candidate_votes_checked(&cs[k]) {
                    Some(v) => v,
                    None => {
                        assert(es@[i as int].races@[j as int].candidates@ == cs@);
                        assert(candidate_votes(cs@[k as int]) > i64::MAX);
                        return false;
                    },
                };
                total = match total.checked_add(v) {
                    Some(t) => t,
                    None => {
                        proof {
                            assert forall|m: int| 0 <= m < cs@.len() implies candidate_votes(#[trigger] cs@[m]) >= 0 by {}
                            crate::tx_results::lemma_votes_sum_prefix(cs@, k + 1);
                            assert(es@[i as int].races@[j as int].candidates@ == cs@);
                        }
                        return false;
                    },
                };
                k = k + 1;
            }
            assert(cs@.take(cs.len() as int) =~= cs@);
            j = j + 1;
        }
        i = i + 1;
    }
    true
}

/// Whether the vote counts of the XML export `text` fit in an `i64` (true
/// where the document does not parse).
pub open spec fn sos_xml_votes_fit(text: Seq<char>) -> bool {
    match xml_nodes(text) {
        Some(nodes) => votes_fit_of(sos_elections(nodes)),
        None => true,
    }
}

/// The staging rows of the XML export `content` (see
/// `parse_tx_sos_elements`), or the parser's message.
pub fn parse_tx_sos_xml(content: &str, source_file: &str) -> (r: Result<Vec<StgTxResultRow>, String>)
    requires
        sos_xml_votes_fit(content@),
    ensures
        match r {
            Ok(rows) => xml_nodes(content@) matches Some(nodes) && exists|es: Seq<SosElectionResult>|
                elections_view(es) == sos_elections(nodes) && rows_view(rows@) == #[trigger] sos_rows(es, source_file@),
            Err(_) => xml_nodes(content@) is None,
        },
{
    let es = sos_elections_from_xml(content)?;
    proof {
        lemma_votes_fit_by_view(es@);
    }
    Ok(parse_tx_sos_elements(&es, source_file))
}

/// [`parse_tx_sos_xml`] where the vote counts of the export fit, `None`
/// where they do not.
pub fn parse_tx_sos_xml_checked(content: &str, source_file: &str) -> (r: Option<Result<Vec<StgTxResultRow>, String>>)
    ensures
        r is None <==> !sos_xml_votes_fit(content@),
        r matches Some(Ok(rows)) ==> xml_nodes(content@) matches Some(nodes) && exists|es: Seq<SosElectionResult>|
            elections_view(es) == sos_elections(nodes) && rows_view(rows@) == #[trigger] sos_rows(es, source_file@),
        r matches Some(Err(_)) ==> xml_nodes(content@) is None,
{
    match sos_elections_from_xml(content) {
        Err(e) => Some(Err(e)),
        Ok(es) => {
            proof {
                lemma_votes_fit_by_view(es@);
            }
            if sos_votes_fit_exec(&es) {
                Some(parse_tx_sos_xml(content, source_file))
            } else {
                None
            }
        },
    }
}

} // verus!
