use web3sniper::banner::lines;

#[test]
fn banner_plain() {
    let l = lines("0.1.0", false);
    assert_eq!(l.len(), 9);
    assert_eq!(l[0], "");
    assert_eq!(l[1], r"                _     _____             _                ");
    assert_eq!(l[3], r"\ \ /\ / / _ \ | '_ \  |_ \/ __| '_ \| | '_ \/ -_) '__| ");
    assert_eq!(l[6], r"                                       |_|              ");
    assert_eq!(l[7], "  v0.1.0 · on-chain launch & graduation watcher");
    assert_eq!(l[8], "");
}

#[test]
fn banner_coloured() {
    let l = lines("2.3.4", true);
    assert_eq!(l[0], "");
    assert_eq!(
        l[2],
        "\x1b[1;36m__      _____  | |__ |___ / ___ _ __ (_)_ __  ___ _ __  \x1b[0m"
    );
    assert_eq!(l[7], "  \x1b[2mv2.3.4 · on-chain launch & graduation watcher\x1b[0m");
}
