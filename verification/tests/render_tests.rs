use websockify::dest::Destination;
use websockify::dest::IpAddress;
use websockify::dest::SockAddr;
use websockify::render::format_ip;
use websockify::render::format_sock_addr;
use websockify::render::u32_to_dec;
use websockify::render::u32_to_hex;

#[test]
fn decimal_rendering() {
    assert_eq!(u32_to_dec(0), "0");
    assert_eq!(u32_to_dec(7), "7");
    assert_eq!(u32_to_dec(105), "105");
    assert_eq!(u32_to_dec(65535), "65535");
    assert_eq!(u32_to_dec(u32::MAX), "4294967295");
}

#[test]
fn hexadecimal_rendering() {
    assert_eq!(u32_to_hex(0), "0");
    assert_eq!(u32_to_hex(10), "a");
    assert_eq!(u32_to_hex(0x2f), "2f");
    assert_eq!(u32_to_hex(0xfe80), "fe80");
}

#[test]
fn ip_rendering() {
    let v4 = IpAddress::V4(192, 168, 0, 17);
    assert_eq!(format_ip(&v4), "192.168.0.17");
    let v6 = IpAddress::V6(0xfe80, 0, 0, 0, 0, 0, 0, 1);
    assert_eq!(format_ip(&v6), "fe80:0:0:0:0:0:0:1");
}

#[test]
fn sock_addr_rendering() {
    let v4 = SockAddr { ip: IpAddress::V4(127, 0, 0, 1), port: 5901 };
    assert_eq!(format_sock_addr(&v4), "127.0.0.1:5901");
    let v6 = SockAddr { ip: IpAddress::V6(0, 0, 0, 0, 0, 0, 0, 1), port: 8080 };
    assert_eq!(format_sock_addr(&v6), "[0:0:0:0:0:0:0:1]:8080");
}

#[test]
fn destination_descriptions() {
    let one = Destination::tcp(vec![SockAddr { ip: IpAddress::V4(127, 0, 0, 1), port: 5901 }])
        .unwrap();
    assert_eq!(one.describe(), "[127.0.0.1:5901]");
    let two = Destination::tcp(vec![
        SockAddr { ip: IpAddress::V4(10, 0, 0, 1), port: 80 },
        SockAddr { ip: IpAddress::V4(10, 0, 0, 2), port: 81 },
    ])
    .unwrap();
    assert_eq!(two.describe(), "[10.0.0.1:80, 10.0.0.2:81]");
    let unix = Destination::unix(String::from("/run/vnc.sock"));
    assert_eq!(unix.describe(), "/run/vnc.sock");
}
