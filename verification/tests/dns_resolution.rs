use microlane::dns::name::DomainName;
use microlane::dns::resolve::{Resolution, ResolveError};
use microlane::dns::response::{RecordContent, RecordSummary, ResponseInfo};

fn name(text: &str) -> DomainName {
    DomainName {
        labels: text.trim_end_matches('.').split('.').map(|l| l.as_bytes().to_vec()).collect(),
    }
}

fn a(owner: &str, addr: u32) -> RecordSummary {
    RecordSummary { owner: name(owner), data: RecordContent::A(addr) }
}

fn ns(owner: &str, target: &str) -> RecordSummary {
    RecordSummary {
        owner: name(owner),
        data: RecordContent::Ns { target: name(target), text: target.to_string() },
    }
}

fn info(code: u16, answers: Vec<RecordSummary>, authority: Vec<RecordSummary>, additionals: Vec<RecordSummary>) -> ResponseInfo {
    ResponseInfo { code, answers, authority, additionals }
}

const SEED: u32 = 0x0808_0404;

#[test]
fn first_answer_address_skips_other_records() {
    let i = info(0, vec![ns("x.", "y."), a("x.", 7), a("x.", 8)], vec![], vec![]);
    assert_eq!(i.first_answer_address(), Some(7));
    assert_eq!(info(0, vec![], vec![], vec![]).first_answer_address(), None);
}

#[test]
fn referral_address_takes_glue_of_referrals_in_order() {
    let q = name("www.example.com.");
    let i = info(
        0,
        vec![],
        vec![ns("org.", "ns0.org."), ns("com.", "ns1.com."), ns("example.com.", "ns2.example.com.")],
        vec![a("ns0.org.", 100), a("ns2.example.com.", 2), a("NS1.COM.", 1)],
    );
    // ns0.org is not a zone of the name; ns1.com comes before ns2.
    assert_eq!(i.referral_address(&q), Some(1));
    assert_eq!(i.referral_index(&q), Some(1));
}

#[test]
fn glue_must_be_an_address_record_of_the_server() {
    let q = name("www.example.com.");
    let i = info(0, vec![], vec![ns("com.", "ns1.com.")], vec![ns("ns1.com.", "z."), a("ns9.com.", 9)]);
    assert_eq!(i.referral_address(&q), None);
    assert_eq!(i.referral_index(&q), Some(0));
}

#[test]
fn final_responses() {
    assert!(info(0, vec![a("x.", 1)], vec![], vec![]).is_final());
    assert!(info(3, vec![], vec![], vec![]).is_final());
    assert!(!info(0, vec![], vec![ns("com.", "a.com.")], vec![]).is_final());
    assert!(!info(2, vec![a("x.", 1)], vec![], vec![]).is_final());
}

#[test]
fn a_direct_answer_finishes_with_that_response() {
    let mut r: Resolution<&str> = Resolution::new("www.example.com.".to_string(), 1, SEED);
    let q = r.next_lookup();
    assert_eq!((q.qname.as_str(), q.qtype, q.server), ("www.example.com.", 1, SEED));
    let done = r.advance("answer", info(0, vec![a("www.example.com.", 42)], vec![], vec![]));
    assert_eq!(done, Ok(Some("answer")));
}

#[test]
fn a_missing_name_finishes_at_once() {
    let mut r: Resolution<&str> = Resolution::new("nope.example.".to_string(), 1, SEED);
    assert_eq!(r.advance("nx", info(3, vec![], vec![], vec![])), Ok(Some("nx")));
}

#[test]
fn a_referral_with_glue_moves_to_that_server() {
    let mut r: Resolution<&str> = Resolution::new("www.example.com.".to_string(), 1, SEED);
    let referral = info(0, vec![], vec![ns("com.", "a.gtld.net.")], vec![a("a.gtld.net.", 0x0102_0304)]);
    assert_eq!(r.advance("referral", referral), Ok(None));
    assert_eq!(r.depth(), 1);
    let q = r.next_lookup();
    assert_eq!((q.qname.as_str(), q.server), ("www.example.com.", 0x0102_0304));
    assert_eq!(r.advance("answer", info(0, vec![a("www.example.com.", 5)], vec![], vec![])), Ok(Some("answer")));
}

#[test]
fn a_referral_without_glue_resolves_the_server_first() {
    let mut r: Resolution<&str> = Resolution::new("www.example.com.".to_string(), 28, SEED);
    let referral = info(0, vec![], vec![ns("example.com.", "ns.other.org.")], vec![]);
    assert_eq!(r.advance("referral", referral), Ok(None));
    assert_eq!(r.depth(), 2);
    let q = r.next_lookup();
    assert_eq!((q.qname.as_str(), q.qtype, q.server), ("ns.other.org.", 1, SEED));

    // The server's address comes back: the suspended frame asks it.
    let server = info(0, vec![a("ns.other.org.", 0x0a00_0001)], vec![], vec![]);
    assert_eq!(r.advance("server", server), Ok(None));
    assert_eq!(r.depth(), 1);
    let q = r.next_lookup();
    assert_eq!((q.qname.as_str(), q.qtype, q.server), ("www.example.com.", 28, 0x0a00_0001));

    assert_eq!(r.advance("final", info(0, vec![a("www.example.com.", 1)], vec![], vec![])), Ok(Some("final")));
}

#[test]
fn when_the_server_cannot_be_found_the_referral_is_the_answer() {
    let mut r: Resolution<&str> = Resolution::new("www.example.com.".to_string(), 1, SEED);
    assert_eq!(r.advance("referral", info(0, vec![], vec![ns("example.com.", "ns.other.org.")], vec![])), Ok(None));
    // The name server does not exist: the resolution falls back on the referral.
    assert_eq!(r.advance("nx", info(3, vec![], vec![], vec![])), Ok(Some("referral")));
}

#[test]
fn a_response_with_no_lead_is_the_answer() {
    let mut r: Resolution<&str> = Resolution::new("www.example.com.".to_string(), 1, SEED);
    // Empty, no error, no referral for this name.
    let nothing = info(0, vec![], vec![ns("org.", "a.org.")], vec![]);
    assert_eq!(r.advance("empty", nothing), Ok(Some("empty")));
}

#[test]
fn an_unreadable_name_fails_the_resolution() {
    let long_label = "a".repeat(70);
    let mut r: Resolution<&str> = Resolution::new(format!("{long_label}.com."), 1, SEED);
    assert_eq!(r.advance("x", info(0, vec![a("x.", 1)], vec![], vec![])), Err(ResolveError::InvalidName));
    assert_eq!(r.depth(), 1);
}
