use ipgeolocate::{Ipv4Address, Ipv6Address};

#[test]
fn ipv4_text() {
    assert_eq!(Ipv4Address::new(192, 168, 1, 1).to_text(), "192.168.1.1");
    assert_eq!(Ipv4Address::new(0, 0, 0, 0).to_text(), "0.0.0.0");
    assert_eq!(Ipv4Address::new(255, 255, 255, 255).to_text(), "255.255.255.255");
    assert_eq!(Ipv4Address::new(1, 10, 100, 9).to_text(), "1.10.100.9");
}

#[test]
fn ipv6_text_elides_the_longest_zero_run() {
    let t = |s: [u16; 8]| Ipv6Address { segments: s }.to_text();
    assert_eq!(t([0x2606, 0x4700, 0x4700, 0, 0, 0, 0, 0x1111]), "2606:4700:4700::1111");
    assert_eq!(t([0, 0, 0, 0, 0, 0, 0, 1]), "::1");
    assert_eq!(t([0, 0, 0, 0, 0, 0, 0, 0]), "::");
    assert_eq!(t([0xfe80, 0, 0, 0, 0, 0, 0, 0]), "fe80::");
    assert_eq!(t([1, 0, 2, 3, 4, 5, 6, 7]), "1:0:2:3:4:5:6:7");
    assert_eq!(t([1, 0, 0, 2, 0, 0, 0, 3]), "1:0:0:2::3");
    assert_eq!(t([0, 0, 0x1c9, 0, 0, 0xafc8, 0, 1]), "::1c9:0:0:afc8:0:1");
    assert_eq!(t([0xABCD, 0x0ef0, 0x10, 1, 0, 0, 0xffff, 0xf]), "abcd:ef0:10:1::ffff:f");
}

#[test]
fn ipv6_global_blocks() {
    let g = |s: [u16; 8]| Ipv6Address { segments: s }.is_global();
    assert!(g([0x2606, 0x4700, 0x4700, 0, 0, 0, 0, 0x1111]));
    assert!(g([0x2001, 0x4860, 0x4860, 0, 0, 0, 0, 0x8888]));
    assert!(g([0x2001, 1, 0, 0, 0, 0, 0, 1]));
    assert!(g([0x2001, 3, 0, 0, 0, 0, 0, 1]));
    assert!(!g([0, 0, 0, 0, 0, 0, 0, 0]));
    assert!(!g([0, 0, 0, 0, 0, 0, 0, 1]));
    assert!(!g([0, 0, 0, 0, 0, 0xffff, 0x0808, 0x0808]));
    assert!(!g([0x64, 0xff9b, 1, 0, 0, 0, 0, 1]));
    assert!(!g([0x100, 0, 0, 0, 1, 2, 3, 4]));
    assert!(!g([0x2001, 0, 0, 0, 0, 0, 0, 1]));
    assert!(!g([0x2001, 0xdb8, 0, 0, 0, 0, 0, 1]));
    assert!(!g([0x2002, 1, 0, 0, 0, 0, 0, 1]));
    assert!(!g([0x3fff, 0x0abc, 0, 0, 0, 0, 0, 1]));
    assert!(!g([0x5f00, 1, 0, 0, 0, 0, 0, 1]));
    assert!(!g([0xfc00, 0, 0, 0, 0, 0, 0, 1]));
    assert!(!g([0xfdff, 0, 0, 0, 0, 0, 0, 1]));
    assert!(!g([0xfe80, 0, 0, 0, 0, 0, 0, 1]));
    assert!(!g([0xfebf, 0, 0, 0, 0, 0, 0, 1]));
    assert!(g([0xfec0, 0, 0, 0, 0, 0, 0, 1]));
}
