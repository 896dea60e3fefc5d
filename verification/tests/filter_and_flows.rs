use tcbee::filter::{
    csv_fields, ip_to_filter_addr, parse_csv, parse_u16, FilterConfig, IpAddress, NumberError,
    FILTER_ANY_PORT, FILTER_DST_IP, FILTER_MODE_MAPS, FILTER_MODE_NONE, FILTER_MODE_SINGLE_PORT,
    FILTER_SRC_PORT,
};
use tcbee::flows::{decode_flow, shorten_to_ipv4, shorten_to_ipv6, Flow, FlowTracker};
use tcbee::text::u64_to_decimal;

fn cs(s: &str) -> Vec<char> {
    s.chars().collect()
}

#[test]
fn empty_filter_records_everything() {
    let f = FilterConfig::new();
    assert_eq!(f.rule_flags(), 0);
    assert_eq!(f.mode(), FILTER_MODE_NONE);
    let d = FilterConfig::default();
    assert_eq!(d.mode(), FILTER_MODE_NONE);
}

#[test]
fn single_port_mode() {
    let mut f = FilterConfig::new();
    f.single_port = 5001;
    assert_eq!(f.rule_flags(), 0);
    assert_eq!(f.mode(), FILTER_MODE_SINGLE_PORT);
}

#[test]
fn lists_set_rule_bits_and_win_over_single_port() {
    let mut f = FilterConfig::new();
    f.single_port = 80;
    f.any_ports = vec![443];
    f.src_ports = vec![1, 2];
    f.dst_ips = vec![[0u8; 16]];
    assert_eq!(f.rule_flags(), FILTER_ANY_PORT | FILTER_SRC_PORT | FILTER_DST_IP);
    assert_eq!(f.rule_flags(), 0x01 | 0x02 | 0x20);
    assert_eq!(f.mode(), FILTER_MODE_MAPS);
}

#[test]
fn filter_addresses() {
    let v4 = ip_to_filter_addr(IpAddress::V4([10, 0, 0, 1]));
    assert_eq!(v4, [10, 0, 0, 1, 0, 0, 0, 0, 0, 0, 0, 0, 0, 0, 0, 0]);
    let raw = [0x20, 0x01, 0x0d, 0xb8, 0, 0, 0, 0, 0, 0, 0, 0, 0, 0, 0, 1];
    assert_eq!(ip_to_filter_addr(IpAddress::V6(raw)), raw);
}

#[test]
fn csv_fields_of_blank_list() {
    assert!(csv_fields("").is_empty());
    assert!(csv_fields("  ").is_empty());
    let f: Vec<String> = csv_fields(" 1, 2").iter().map(|v| v.iter().collect()).collect();
    assert_eq!(f, vec![" 1", " 2"]);
}

#[test]
fn parse_u16_like_from_str() {
    assert_eq!(parse_u16(&cs("80")), Ok(80));
    assert_eq!(parse_u16(&cs("+443")), Ok(443));
    assert_eq!(parse_u16(&cs("65535")), Ok(65535));
    assert_eq!(parse_u16(&cs("0007")), Ok(7));
    assert_eq!(parse_u16(&cs("")), Err(NumberError::Empty));
    assert_eq!(parse_u16(&cs("+")), Err(NumberError::InvalidDigit));
    assert_eq!(parse_u16(&cs("-1")), Err(NumberError::InvalidDigit));
    assert_eq!(parse_u16(&cs("8o")), Err(NumberError::InvalidDigit));
    assert_eq!(parse_u16(&cs("65536")), Err(NumberError::PosOverflow));
    for text in ["80", "+443", "65535", "", "+", "-1", "8o", "65536", "99999999"] {
        let ours = parse_u16(&cs(text)).map_err(|e| e.text().to_string());
        let std = text.parse::<u16>().map_err(|e| e.to_string());
        assert_eq!(ours, std, "{text}");
    }
}

#[test]
fn port_text_round_trip() {
    for port in [0u16, 7, 80, 443, 5001, 65535] {
        let text = u64_to_decimal(port as u64);
        assert_eq!(parse_u16(&text), Ok(port));
    }
}

#[test]
fn parse_csv_ports() {
    assert_eq!(parse_csv("80, 443 ,5001", "port"), Ok(vec![80, 443, 5001]));
    assert_eq!(parse_csv("   ", "port"), Ok(vec![]));
    assert_eq!(
        parse_csv("80, abc", "src port"),
        Err("Invalid src port ' abc': invalid digit found in string".to_string())
    );
    assert_eq!(
        parse_csv("70000", "port"),
        Err("Invalid port '70000': number too large to fit in target type".to_string())
    );
    assert_eq!(
        parse_csv("1,,2", "port"),
        Err("Invalid port '': cannot parse integer from empty string".to_string())
    );
}

#[test]
fn number_error_texts() {
    assert_eq!(NumberError::Empty.text(), "cannot parse integer from empty string");
    assert_eq!(NumberError::InvalidDigit.text(), "invalid digit found in string");
    assert_eq!(NumberError::PosOverflow.text(), "number too large to fit in target type");
}

#[test]
fn socket_address_parts() {
    let mut raw = [0u8; 28];
    for (i, b) in raw.iter_mut().enumerate() {
        *b = i as u8;
    }
    assert_eq!(shorten_to_ipv4(raw), [4, 5, 6, 7]);
    assert_eq!(shorten_to_ipv6(raw), [4, 5, 6, 7, 8, 9, 10, 11, 12, 13, 14, 15, 16, 17, 18, 19]);
    let mut addr = [0u8; 16];
    addr[..4].copy_from_slice(&[192, 168, 1, 2]);
    assert_eq!(FlowTracker::shorten_to_ipv4(addr), [192, 168, 1, 2]);
}

fn v4_of(f: &Flow) -> ([u8; 4], [u8; 4]) {
    match (f.src, f.dst) {
        (IpAddress::V4(a), IpAddress::V4(b)) => (a, b),
        _ => panic!("not an IPv4 flow"),
    }
}

#[test]
fn decode_mapped_ipv4() {
    let mut src = [0u8; 16];
    let mut dst = [0u8; 16];
    src[10] = 0xff;
    src[11] = 0xff;
    src[12..].copy_from_slice(&[10, 0, 0, 1]);
    dst[10] = 0xff;
    dst[11] = 0xff;
    dst[12..].copy_from_slice(&[10, 0, 0, 2]);
    let (flow, v6) = decode_flow(src, dst, 5001, 40000);
    assert!(!v6);
    assert_eq!(v4_of(&flow), ([10, 0, 0, 1], [10, 0, 0, 2]));
    assert_eq!((flow.sport, flow.dport), (5001, 40000));
}

#[test]
fn decode_compat_ipv4_and_ipv6() {
    let mut src = [0u8; 16];
    let mut dst = [0u8; 16];
    src[..4].copy_from_slice(&[127, 0, 0, 1]);
    dst[..4].copy_from_slice(&[127, 0, 0, 2]);
    let (flow, v6) = decode_flow(src, dst, 1, 2);
    assert!(!v6);
    assert_eq!(v4_of(&flow), ([127, 0, 0, 1], [127, 0, 0, 2]));

    let six = [0x20, 0x01, 0x0d, 0xb8, 0, 0, 0, 0, 0, 0, 0, 0, 0, 0, 0, 1];
    let (flow, v6) = decode_flow(six, six, 3, 4);
    assert!(v6);
    match flow.src {
        IpAddress::V6(a) => assert_eq!(a, six),
        IpAddress::V4(_) => panic!("expected IPv6"),
    }
}

fn flow(a: u8, sport: u16) -> Flow {
    Flow { src: IpAddress::V4([10, 0, 0, a]), dst: IpAddress::V4([10, 0, 0, 99]), sport, dport: 80 }
}

#[test]
fn tracker_keeps_distinct_flows_in_order() {
    let mut t = FlowTracker::new();
    assert_eq!(t.len(), 0);
    assert_eq!(t.num_flows(), 0);
    t.insert(flow(1, 1000), false);
    t.insert(flow(2, 1000), false);
    t.insert(flow(1, 1000), true);
    t.insert(flow(1, 1001), false);
    assert_eq!(t.len(), 3);
    let (f0, m0) = t.get(0);
    assert_eq!(v4_of(&f0).0, [10, 0, 0, 1]);
    assert!(m0);
    let (f2, _) = t.get(2);
    assert_eq!(f2.sport, 1001);
    assert_eq!(t.num_flows(), 0);
    t.refresh_count();
    assert_eq!(t.num_flows(), 3);
}
