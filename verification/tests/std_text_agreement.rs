use dev_proxy::address::SocketAddr;

/// An independent rendering of IPv6 text (RFC 5952 style, as std prints
/// it): `::ffff:a.b.c.d` for IPv4-mapped addresses, otherwise hex groups
/// with the first longest run of two or more zero groups as `::`.
fn reference_ipv6(o: [u8; 16]) -> String {
    if o[..10].iter().all(|b| *b == 0) && o[10] == 0xff && o[11] == 0xff {
        return format!("::ffff:{}.{}.{}.{}", o[12], o[13], o[14], o[15]);
    }
    let g: Vec<u16> = (0..8).map(|i| ((o[2 * i] as u16) << 8) | o[2 * i + 1] as u16).collect();
    let (mut best_start, mut best_len) = (0usize, 0usize);
    for start in 0..8 {
        for len in (1..=8 - start).rev() {
            if g[start..start + len].iter().all(|x| *x == 0) && len > best_len {
                best_start = start;
                best_len = len;
            }
        }
    }
    let hex = |s: &[u16]| s.iter().map(|x| format!("{:x}", x)).collect::<Vec<_>>().join(":");
    if best_len > 1 {
        format!("{}::{}", hex(&g[..best_start]), hex(&g[best_start + best_len..]))
    } else {
        hex(&g)
    }
}

#[test]
fn socket_text_agrees_with_reference_rendering() {
    let mut seed: u64 = 0x9e3779b97f4a7c15;
    for round in 0..5000u32 {
        let mut o = [0u8; 16];
        for b in o.iter_mut() {
            seed ^= seed << 13;
            seed ^= seed >> 7;
            seed ^= seed << 17;
            *b = if seed % 3 != 0 { 0 } else { (seed >> 24) as u8 };
        }
        if round % 7 == 0 {
            for b in o.iter_mut().take(10) {
                *b = 0;
            }
            o[10] = 0xff;
            o[11] = 0xff;
        }
        let port = (seed >> 40) as u16;
        let ours = SocketAddr::V6(o, port, 0, 0).to_string();
        assert_eq!(ours, format!("[{}]:{}", reference_ipv6(o), port));
        let scope = (seed >> 8) as u32 % 5;
        let scoped = SocketAddr::V6(o, port, round, scope).to_string();
        if scope == 0 {
            assert_eq!(scoped, ours);
        } else {
            assert_eq!(scoped, format!("[{}%{}]:{}", reference_ipv6(o), scope, port));
        }
        let v4 = [o[0], o[1], o[2], o[3]];
        let ours = SocketAddr::V4(v4, port).to_string();
        assert_eq!(ours, format!("{}.{}.{}.{}:{}", v4[0], v4[1], v4[2], v4[3], port));
    }
}
