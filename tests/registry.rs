use autoscale_lb::backend::Backend;
use autoscale_lb::proxy::{choose_peer, upstream_host, ProxyError, SNI, USE_TLS};
use autoscale_lb::registry::{dedup_by_address, BackendRegistry};

fn backend(addr: &str) -> Backend {
    Backend { addr: addr.to_string(), weight: 1 }
}

fn registry_of(addrs: &[&str]) -> BackendRegistry {
    let mut r = BackendRegistry::new();
    r.replace(addrs.iter().map(|a| backend(a)).collect());
    r
}

#[test]
fn select_cycles_through_every_member_before_repeating() {
    let addrs = ["10.0.0.1:80", "10.0.0.2:80", "10.0.0.3:80"];
    let mut r = registry_of(&addrs);
    let first: Vec<String> = (0..3).map(|_| r.select().unwrap().addr).collect();
    assert_eq!(first, vec!["10.0.0.1:80", "10.0.0.2:80", "10.0.0.3:80"]);
    let second: Vec<String> = (0..3).map(|_| r.select().unwrap().addr).collect();
    assert_eq!(second, first);
}

#[test]
fn select_on_empty_registry_is_none() {
    let mut r = BackendRegistry::new();
    assert!(r.is_empty());
    assert_eq!(r.select(), None);
    assert_eq!(r.select(), None);
}

#[test]
fn select_only_returns_published_backends() {
    let mut r = registry_of(&["10.0.0.1:80", "10.0.0.2:80"]);
    for _ in 0..10 {
        let b = r.select().unwrap();
        assert!(b.addr == "10.0.0.1:80" || b.addr == "10.0.0.2:80");
        assert_eq!(b.weight, 1);
    }
}

#[test]
fn replace_dedups_by_address_keeping_the_first() {
    let mut r = BackendRegistry::new();
    r.replace(vec![
        backend("10.0.0.1:80"),
        Backend { addr: "10.0.0.2:80".to_string(), weight: 3 },
        Backend { addr: "10.0.0.1:80".to_string(), weight: 7 },
        backend("10.0.0.2:80"),
    ]);
    assert_eq!(r.len(), 2);
    assert_eq!(
        r.snapshot(),
        vec![backend("10.0.0.1:80"), Backend { addr: "10.0.0.2:80".to_string(), weight: 3 }]
    );
}

#[test]
fn dedup_by_address_is_idempotent() {
    let v = vec![backend("a:80"), backend("b:80"), backend("a:80")];
    let once = dedup_by_address(v);
    let twice = dedup_by_address(once.clone());
    assert_eq!(once, twice);
    assert_eq!(once, vec![backend("a:80"), backend("b:80")]);
}

#[test]
fn replace_restarts_selection_and_never_mixes_sets() {
    let mut r = registry_of(&["10.0.0.1:80", "10.0.0.2:80"]);
    let pre = r.snapshot();
    assert_eq!(r.select().unwrap().addr, "10.0.0.1:80");
    r.replace(vec![backend("10.0.1.1:80"), backend("10.0.1.2:80"), backend("10.0.1.3:80")]);
    let post = r.snapshot();
    let mut seen = Vec::new();
    for _ in 0..100 {
        let b = r.select().unwrap();
        assert!(post.contains(&b) && !pre.contains(&b));
        seen.push(b.addr);
    }
    assert_eq!(&seen[0..3], &["10.0.1.1:80", "10.0.1.2:80", "10.0.1.3:80"]);
}

#[test]
fn interleaved_replace_and_select_return_whole_members() {
    let pre = vec![backend("10.0.0.1:80"), backend("10.0.0.2:80")];
    let post = vec![backend("10.0.9.9:80")];
    let mut r = BackendRegistry::new();
    r.replace(pre.clone());
    for i in 0..100 {
        if i == 50 {
            r.replace(post.clone());
        }
        let b = r.select().unwrap();
        if i < 50 {
            assert!(pre.contains(&b));
        } else {
            assert!(post.contains(&b));
        }
    }
}

#[test]
fn replace_with_empty_set_empties_registry() {
    let mut r = registry_of(&["10.0.0.1:80"]);
    r.replace(Vec::new());
    assert_eq!(r.len(), 0);
    assert_eq!(r.select(), None);
}

#[test]
fn choose_peer_without_backend_is_no_upstream() {
    let mut r = BackendRegistry::new();
    assert_eq!(choose_peer(&mut r), Err(ProxyError::NoUpstream));
}

#[test]
fn choose_peer_round_robins_with_static_transport() {
    let mut r = registry_of(&["10.0.0.1:80", "10.0.0.2:80"]);
    let a = choose_peer(&mut r).unwrap();
    let b = choose_peer(&mut r).unwrap();
    let c = choose_peer(&mut r).unwrap();
    assert_eq!(a.addr, "10.0.0.1:80");
    assert_eq!(b.addr, "10.0.0.2:80");
    assert_eq!(c.addr, "10.0.0.1:80");
    assert_eq!(a.use_tls, USE_TLS);
    assert!(!a.use_tls);
    assert_eq!(a.sni, SNI);
    assert_eq!(a.sni, "0.0.0.0:6188");
}

#[test]
fn upstream_host_is_fixed() {
    assert_eq!(upstream_host(), "one.one.one.one");
}
