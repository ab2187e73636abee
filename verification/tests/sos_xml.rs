use populist_scrapers::sos_xml::{parse_tx_sos_xml, parse_tx_sos_xml_checked, sos_elections_from_xml, sos_votes_fit_exec};

const XML: &str = r#"<?xml version="1.0"?>
<TX-SOS>
  <ElectionVoterTurnout registeredVoters="100">
    <Race name="Ignored" key="X"><Candidate name="Nobody" ballotsCast="5"/></Race>
  </ElectionVoterTurnout>
  <ElectionResult ElectionName="2026 Republican Primary Election" ElectionDate="2026-03-03">
    <Race name=" U. S. Senator " key="R1" precinctsReported="10" precinctsParticipating="12">
      <Candidate name="John Cornyn (I)" key="C1" earlyBallotsCast="100" ballotsCast="50" totalVoters="1000">
        <County name="Travis" ballotsCast="3"/>
      </Candidate>
      <Candidate name="Ken Paxton" key="C2" ballotsCast="70"/>
    </Race>
    <Race name="Empty" key="R2"/>
  </ElectionResult>
</TX-SOS>"#;

#[test]
fn elections_races_and_candidates_are_read_in_order() {
    let es = sos_elections_from_xml(XML).expect("parsed");
    assert_eq!(es.len(), 1);
    let e = &es[0];
    assert_eq!(e.election_name.as_deref(), Some("2026 Republican Primary Election"));
    assert_eq!(e.election_date.as_deref(), Some("2026-03-03"));
    assert_eq!(e.races.len(), 2);
    assert_eq!(e.races[0].name.as_deref(), Some(" U. S. Senator "));
    assert_eq!(e.races[0].precincts_reported.as_deref(), Some("10"));
    assert_eq!(e.races[0].candidates.len(), 2);
    assert_eq!(e.races[0].candidates[0].early_ballots_cast.as_deref(), Some("100"));
    assert_eq!(e.races[0].candidates[1].early_ballots_cast, None);
    assert!(e.races[1].candidates.is_empty());
    assert!(sos_votes_fit_exec(&es));
}

#[test]
fn xml_rows_carry_votes_totals_and_keys() {
    let rows = parse_tx_sos_xml(XML, "a.xml").expect("rows");
    assert_eq!(rows.len(), 2);
    assert_eq!(rows[0].office_name.as_deref(), Some("U. S. Senator"));
    assert_eq!(rows[0].candidate_name.as_deref(), Some("John Cornyn"));
    assert_eq!(rows[0].votes_for_candidate, Some(150));
    assert_eq!(rows[0].total_votes, Some(220));
    assert_eq!(rows[0].ref_key, "tx-primaries-2026-u-s-senator-john-cornyn");
    assert_eq!(rows[1].votes_for_candidate, Some(70));
    assert_eq!(rows[1].total_voters, None);
}

#[test]
fn bad_xml_is_an_error_and_overflow_is_refused() {
    assert!(parse_tx_sos_xml("<a><b></a>", "x").is_err());
    let huge = r#"<r><ElectionResult ElectionName="x"><Race name="R"><Candidate name="A" ballotsCast="9223372036854775807"/><Candidate name="B" ballotsCast="1"/></Race></ElectionResult></r>"#;
    assert!(parse_tx_sos_xml_checked(huge, "x").is_none());
    assert!(parse_tx_sos_xml_checked(XML, "x").is_some());
    assert!(matches!(parse_tx_sos_xml_checked("<a>", "x"), Some(Err(_))));
}
