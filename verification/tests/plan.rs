use fetch::error::ConfigError;
use fetch::method::Method;
use fetch::options::Args;
use fetch::plan::{
    body_to_send, limit, parse_form, parse_headers, parse_pairs, plan_for, redirect_policy,
    resolve, resolve_headers, select_body, tls_floor, Body, CaFile, Redirect, TlsFloor,
};
use fetch::protocols::Protocols;
use fetch::trust::{anchors_from_bundle, cert_format, load_trust_anchors, CertFormat};

fn plain() -> Args {
    Args::new(String::from("https://example.org/artifact"))
}

fn strings(items: &[&str]) -> Vec<String> {
    items.iter().map(|s| String::from(*s)).collect()
}

fn pair(name: &str, value: &str) -> (String, String) {
    (String::from(name), String::from(value))
}

#[test]
fn headers_are_split_at_the_first_colon_and_trimmed() {
    let headers = strings(&[
        "Accept: text/plain",
        "  X-Time :  12:30:00  ",
        "no colon here",
        ":",
        "Empty:",
        "\u{a0}Name\u{2003}:\tvalue\r\n",
        "Accept: text/html",
    ]);
    assert_eq!(
        parse_headers(&headers),
        vec![
            pair("Accept", "text/plain"),
            pair("X-Time", "12:30:00"),
            pair("", ""),
            pair("Empty", ""),
            pair("Name", "value"),
            pair("Accept", "text/html"),
        ]
    );
    assert_eq!(parse_headers(&Vec::new()), Vec::new());
}

#[test]
fn form_fields_keep_their_values_as_they_are() {
    let form = strings(&[" key = value ", "a=b=c", "dropped", "=", "k=", "=v"]);
    assert_eq!(
        parse_form(&form),
        vec![
            pair("key", " value "),
            pair("a", "b=c"),
            pair("", ""),
            pair("k", ""),
            pair("", "v"),
        ]
    );
    assert_eq!(parse_pairs(&strings(&["a; b "]), ';', true), vec![pair("a", "b")]);
    assert_eq!(parse_pairs(&strings(&["a; b "]), ';', false), vec![pair("a", " b ")]);
}

#[test]
fn user_agent_follows_the_headers() {
    let headers = strings(&["A: 1", "bad", "B: 2"]);
    assert_eq!(
        resolve_headers(&headers, &Some(String::from("agent/1.0"))),
        vec![pair("A", "1"), pair("B", "2"), pair("user-agent", "agent/1.0")]
    );
    assert_eq!(resolve_headers(&headers, &None), vec![pair("A", "1"), pair("B", "2")]);
}

#[test]
fn body_sources_are_tried_in_order() {
    let mut args = plain();
    assert_eq!(select_body(&args), Body::Empty);

    args.form = strings(&["a=1", "junk", " b =2"]);
    assert_eq!(
        select_body(&args),
        Body::MultipartFields(vec![pair("a", "1"), pair("b", "2")])
    );

    args.data_raw = Some(String::from("@not-a-file"));
    assert_eq!(select_body(&args), Body::InlineBytes(String::from("@not-a-file")));

    args.data = Some(String::from("inline"));
    assert_eq!(select_body(&args), Body::InlineBytes(String::from("inline")));

    args.data = Some(String::from("@payload.bin"));
    assert_eq!(select_body(&args), Body::FileStream(String::from("payload.bin")));

    args.data = Some(String::from("@"));
    assert_eq!(select_body(&args), Body::FileStream(String::new()));

    args.data = Some(String::new());
    assert_eq!(select_body(&args), Body::InlineBytes(String::new()));

    args.data = Some(String::from(" @x"));
    assert_eq!(select_body(&args), Body::InlineBytes(String::from(" @x")));
}

#[test]
fn form_without_any_pair_is_an_empty_form() {
    let mut args = plain();
    args.form = strings(&["junk"]);
    assert_eq!(select_body(&args), Body::MultipartFields(Vec::new()));
}

#[test]
fn unopened_body_file_leaves_no_body() {
    let file = Body::FileStream(String::from("p"));
    assert_eq!(body_to_send(file.clone(), true), file);
    assert_eq!(body_to_send(file, false), Body::Empty);
    let inline = Body::InlineBytes(String::from("x"));
    assert_eq!(body_to_send(inline.clone(), false), inline);
    assert_eq!(body_to_send(Body::Empty, false), Body::Empty);
    let form = Body::MultipartFields(vec![pair("a", "b")]);
    assert_eq!(body_to_send(form.clone(), false), form);
}

#[test]
fn redirects_are_limited_or_disabled() {
    assert_eq!(redirect_policy(true, 5), Redirect::LimitedTo(5));
    assert_eq!(redirect_policy(true, 0), Redirect::LimitedTo(0));
    assert_eq!(redirect_policy(false, 5), Redirect::Disabled);
    assert_eq!(redirect_policy(false, 0), Redirect::Disabled);
}

#[test]
fn highest_tls_floor_wins() {
    for bits in 0..32u32 {
        let mut args = plain();
        args.tlsv1 = bits & 1 != 0;
        args.tlsv1_0 = bits & 2 != 0;
        args.tlsv1_1 = bits & 4 != 0;
        args.tlsv1_2 = bits & 8 != 0;
        args.tlsv1_3 = bits & 16 != 0;
        let expected = if bits >= 16 {
            TlsFloor::Tls1_3
        } else if bits >= 8 {
            TlsFloor::Tls1_2
        } else if bits >= 4 {
            TlsFloor::Tls1_1
        } else if bits >= 1 {
            TlsFloor::Tls1_0
        } else {
            TlsFloor::Unset
        };
        assert_eq!(tls_floor(&args), expected);
    }
}

#[test]
fn zero_means_no_limit() {
    assert_eq!(limit(0), None);
    assert_eq!(limit(1), Some(1));
    assert_eq!(limit(u64::MAX), Some(u64::MAX));
}

#[test]
fn plain_options_make_a_plain_get() {
    let plan = resolve(&plain(), &CaFile::Absent).unwrap();
    assert_eq!(plan.method, Method::Get);
    assert_eq!(plan.url, "https://example.org/artifact");
    assert_eq!(plan.headers, Vec::new());
    assert_eq!(plan.body, Body::Empty);
    assert_eq!(plan.redirect, Redirect::Disabled);
    assert_eq!(plan.tls_floor, TlsFloor::Unset);
    assert_eq!(plan.protocol_allow, Protocols { http: true, https: true });
    assert!(!plan.insecure);
    assert_eq!(plan.proxy, None);
    assert!(plan.trust_anchors.is_empty());
    assert_eq!(plan.connect_timeout, None);
    assert_eq!(plan.total_timeout, None);
    assert_eq!(plan.max_filesize, None);
}

fn busy() -> Args {
    let mut args = plain();
    args.request = Some(String::from("pAtCh"));
    args.header = strings(&["A: 1", "junk"]);
    args.user_agent = Some(String::from("ua"));
    args.data = Some(String::from("@body"));
    args.data_raw = Some(String::from("raw"));
    args.form = strings(&["a=b"]);
    args.insecure = true;
    args.location = true;
    args.max_redirs = 3;
    args.max_filesize = 1024;
    args.connect_timeout = 7;
    args.max_time = 60;
    args.tlsv1_1 = true;
    args.tlsv1_2 = true;
    args.proto = String::from("-all,+https");
    args.proxy = Some(String::from("http://proxy:3128"));
    args
}

#[test]
fn every_option_lands_in_the_plan() {
    let plan = resolve(&busy(), &CaFile::Absent).unwrap();
    assert_eq!(plan.method, Method::Patch);
    assert_eq!(plan.headers, vec![pair("A", "1"), pair("user-agent", "ua")]);
    assert_eq!(plan.body, Body::FileStream(String::from("body")));
    assert_eq!(plan.redirect, Redirect::LimitedTo(3));
    assert_eq!(plan.tls_floor, TlsFloor::Tls1_2);
    assert_eq!(plan.protocol_allow, Protocols { http: false, https: true });
    assert!(plan.protocol_allow.https_only());
    assert!(plan.insecure);
    assert_eq!(plan.proxy, Some(String::from("http://proxy:3128")));
    assert_eq!(plan.connect_timeout, Some(7));
    assert_eq!(plan.total_timeout, Some(60));
    assert_eq!(plan.max_filesize, Some(1024));
}

#[test]
fn resolving_twice_gives_the_same_plan() {
    let args = busy();
    let first = resolve(&args, &CaFile::Absent).unwrap();
    let second = resolve(&args, &CaFile::Absent).unwrap();
    assert_eq!(first.method, second.method);
    assert_eq!(first.url, second.url);
    assert_eq!(first.headers, second.headers);
    assert_eq!(first.body, second.body);
    assert_eq!(first.redirect, second.redirect);
    assert_eq!(first.tls_floor, second.tls_floor);
    assert_eq!(first.protocol_allow, second.protocol_allow);
    assert_eq!(first.insecure, second.insecure);
    assert_eq!(first.proxy, second.proxy);
    assert_eq!(first.trust_anchors.len(), second.trust_anchors.len());
    assert_eq!(first.connect_timeout, second.connect_timeout);
    assert_eq!(first.total_timeout, second.total_timeout);
    assert_eq!(first.max_filesize, second.max_filesize);
    assert_eq!(format!("{:?}", first), format!("{:?}", second));
}

#[test]
fn plan_is_built_around_the_given_method() {
    let plan = plan_for(&busy(), Method::Delete, Vec::new());
    assert_eq!(plan.method, Method::Delete);
    assert_eq!(plan.body, Body::FileStream(String::from("body")));
}

#[test]
fn invalid_method_is_found_first() {
    let mut args = plain();
    args.request = Some(String::from("FETCH"));
    args.cacert = Some(String::from("ca.pem"));
    assert_eq!(resolve(&args, &CaFile::NotOpened).err(), Some(ConfigError::InvalidMethod));
    assert_eq!(resolve(&args, &CaFile::Absent).err(), Some(ConfigError::InvalidMethod));
}

#[test]
fn unreadable_ca_file_is_fatal() {
    let mut args = plain();
    args.cacert = Some(String::from("ca.pem"));
    assert_eq!(resolve(&args, &CaFile::NotOpened).err(), Some(ConfigError::CaFileNotOpened));
    assert_eq!(resolve(&args, &CaFile::Absent).err(), Some(ConfigError::CaFileNotOpened));
    assert_eq!(resolve(&args, &CaFile::NotRead).err(), Some(ConfigError::CaFileNotRead));
}

#[test]
fn ca_file_is_ignored_unless_named() {
    let plan = resolve(&plain(), &CaFile::Content(vec![1, 2, 3])).unwrap();
    assert!(plan.trust_anchors.is_empty());
    let plan = resolve(&plain(), &CaFile::NotRead).unwrap();
    assert!(plan.trust_anchors.is_empty());
}

#[test]
fn format_goes_by_the_ending_of_the_name() {
    assert_eq!(cert_format("ca.der"), CertFormat::Der);
    assert_eq!(cert_format(".der"), CertFormat::Der);
    assert_eq!(cert_format("a.pem.der"), CertFormat::Der);
    assert_eq!(cert_format("ca.pem"), CertFormat::PemBundle);
    assert_eq!(cert_format("ca.DER"), CertFormat::PemBundle);
    assert_eq!(cert_format("ca.der "), CertFormat::PemBundle);
    assert_eq!(cert_format("der"), CertFormat::PemBundle);
    assert_eq!(cert_format(""), CertFormat::PemBundle);
    assert_eq!(cert_format("\u{e9}.der"), CertFormat::Der);
}

#[test]
fn bundle_without_certificates_gives_no_anchors() {
    let anchors = load_trust_anchors("ca.pem", b"no certificate here\n").unwrap();
    assert!(anchors.is_empty());
    let mut args = plain();
    args.cacert = Some(String::from("ca.crt"));
    let plan = resolve(&args, &CaFile::Content(Vec::new())).unwrap();
    assert!(plan.trust_anchors.is_empty());
}

const CERT_DER_HEX: &str = "308201753082011ba00302010202146bec319a2c964b7002d1e7024a1d8fe6ffb97db6300a06082a8648ce3d040302300f310d300b06035504030c04746573743020170d3236313032383032323231315a180f32313236313030343032323231315a300f310d300b06035504030c04746573743059301306072a8648ce3d020106082a8648ce3d030107034200049570b99109fd742c417be1d6c66591f57c12aefe3feee67e754694b7d4da3a98d0393ebddcd72eb34c75d6bbfd67c304cee740ee0475582a8a2b2698ffa0f63da3533051301d0603551d0e041604147d068f7102f754c299b40b99d893609d29033694301f0603551d230418301680147d068f7102f754c299b40b99d893609d29033694300f0603551d130101ff040530030101ff300a06082a8648ce3d04030203480030450220596cd2c167d194a5157e126c7ef6d2d4ba5ae151129d2cb3b7b209b2603ccc470221008581c79d2031a1693202e5ad59ac13f734e47729e1b44ba6924bd63d1891811e";

const CERT_PEM: &str = "-----BEGIN CERTIFICATE-----
MIIBdTCCARugAwIBAgIUa+wxmiyWS3AC0ecCSh2P5v+5fbYwCgYIKoZIzj0EAwIw
DzENMAsGA1UEAwwEdGVzdDAgFw0yNjEwMjgwMjIyMTFaGA8yMTI2MTAwNDAyMjIx
MVowDzENMAsGA1UEAwwEdGVzdDBZMBMGByqGSM49AgEGCCqGSM49AwEHA0IABJVw
uZEJ/XQsQXvh1sZlkfV8Eq7+P+7mfnVGlLfU2jqY0Dk+vdzXLrNMdda7/WfDBM7n
QO4EdVgqiismmP+g9j2jUzBRMB0GA1UdDgQWBBR9Bo9xAvdUwpm0C5nYk2CdKQM2
lDAfBgNVHSMEGDAWgBR9Bo9xAvdUwpm0C5nYk2CdKQM2lDAPBgNVHRMBAf8EBTAD
AQH/MAoGCCqGSM49BAMCA0gAMEUCIFls0sFn0ZSlFX4SbH720tS6WuFREp0ss7ey
CbJgPMxHAiEAhYHHnSAxoWkyAuWtWawT9zTkdynhtEumkkvWPRiRgR4=
-----END CERTIFICATE-----
";

#[test]
fn broken_bundle_is_a_configuration_error() {
    let broken = b"-----BEGIN CERTIFICATE-----\n!!!!\n-----END CERTIFICATE-----\n";
    assert_eq!(
        load_trust_anchors("ca.pem", broken).err(),
        Some(ConfigError::InvalidPemBundle)
    );
    let mut args = plain();
    args.cacert = Some(String::from("bundle"));
    assert_eq!(
        resolve(&args, &CaFile::Content(broken.to_vec())).err(),
        Some(ConfigError::InvalidPemBundle)
    );
}

#[test]
fn broken_der_file_is_a_configuration_error() {
    assert_eq!(
        load_trust_anchors("ca.der", &[0x30, 0x03, 0x02, 0x01, 0x00]).err(),
        Some(ConfigError::InvalidDerCertificate)
    );
    assert_eq!(
        load_trust_anchors("ca.der", CERT_PEM.as_bytes()).err(),
        Some(ConfigError::InvalidDerCertificate)
    );
    let mut args = plain();
    args.cacert = Some(String::from("ca.der"));
    assert_eq!(
        resolve(&args, &CaFile::Content(vec![0xff])).err(),
        Some(ConfigError::InvalidDerCertificate)
    );
}

#[test]
fn der_file_gives_one_anchor() {
    let der = hex::decode(CERT_DER_HEX).unwrap();
    assert_eq!(load_trust_anchors("ca.der", &der).map(|v| v.len()), Ok(1));
    let mut args = plain();
    args.cacert = Some(String::from("ca.der"));
    let plan = resolve(&args, &CaFile::Content(der)).unwrap();
    assert_eq!(plan.trust_anchors.len(), 1);
    assert_eq!(plan.method, Method::Get);
}

#[test]
fn bundle_gives_all_its_certificates() {
    assert_eq!(load_trust_anchors("ca.pem", CERT_PEM.as_bytes()).map(|v| v.len()), Ok(1));
    let twice = format!("{}text between\n{}", CERT_PEM, CERT_PEM);
    assert_eq!(load_trust_anchors("ca.crt", twice.as_bytes()).map(|v| v.len()), Ok(2));
    let mut args = plain();
    args.cacert = Some(String::from("ca.pem"));
    let plan = resolve(&args, &CaFile::Content(twice.into_bytes())).unwrap();
    assert_eq!(plan.trust_anchors.len(), 2);
}

#[test]
fn parsed_bundle_is_handed_on() {
    assert_eq!(anchors_from_bundle(Ok(Vec::new())).map(|v| v.len()), Ok(0));
}
