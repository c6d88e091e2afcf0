use pty::ClientState;
use pty::FileDesc;
use pty::TtyServer;
use pty::WinSize;
use pty::path::ptmx_path;
use pty::path::pts_path;
use pty::pump::PumpVerdict;
use pty::pump::SPLICE_CHUNK;
use pty::pump::SpliceOutcome;
use pty::pump::pump_react;
use pty::term::TermState;
use pty::term::apply_raw_mode;
use pty::term::make_raw;
use pty::term::snapshot;

fn all_ones_state() -> TermState {
    TermState {
        iflag: 0xffff_ffff,
        oflag: 0x1234_5678,
        cflag: 0x9abc_def0,
        lflag: 0xffff_ffff,
        cc: vec![7u8; 32],
    }
}

#[test]
fn make_raw_exact_flags() {
    let r = make_raw(&all_ones_state());
    // IGNBRK and ICRNL cleared, BRKINT set
    assert_eq!(r.iflag, 0xffff_fefe);
    // ECHO, ICANON, ISIG cleared
    assert_eq!(r.lflag, 0xffff_fff4);
    // output and control words untouched
    assert_eq!(r.oflag, 0x1234_5678);
    assert_eq!(r.cflag, 0x9abc_def0);
    // VMIN = 1, VTIME = 0, everything else untouched
    assert_eq!(r.cc[6], 1);
    assert_eq!(r.cc[5], 0);
    for i in 0..32 {
        if i != 5 && i != 6 {
            assert_eq!(r.cc[i], 7);
        }
    }
}

#[test]
fn make_raw_from_zero() {
    let t = TermState { iflag: 0, oflag: 0, cflag: 0, lflag: 0, cc: vec![0u8; 32] };
    let r = make_raw(&t);
    assert_eq!(r.iflag, 0o002);
    assert_eq!(r.lflag, 0);
    assert_eq!(r.cc[6], 1);
    assert_eq!(r.cc[5], 0);
}

#[test]
fn raw_mode_idempotent() {
    let once = make_raw(&all_ones_state());
    let twice = make_raw(&once);
    assert_eq!(once, twice);
}

#[test]
fn snapshot_rejects_bad_descriptor() {
    match snapshot(-1) {
        Ok(_) => panic!("snapshot of an invalid descriptor succeeded"),
        Err(errno) => assert_eq!(errno, 9),
    }
}

#[test]
fn apply_raw_mode_rejects_bad_descriptor() {
    match apply_raw_mode(-1) {
        Ok(_) => panic!("raw mode on an invalid descriptor succeeded"),
        Err(errno) => assert_eq!(errno, 9),
    }
}

#[test]
fn pts_paths_spell_the_index() {
    assert_eq!(pts_path(0).as_str(), "/dev/pts/0");
    assert_eq!(pts_path(7).as_str(), "/dev/pts/7");
    assert_eq!(pts_path(40).as_str(), "/dev/pts/40");
    assert_eq!(pts_path(1042).as_str(), "/dev/pts/1042");
    assert_eq!(pts_path(4294967295).as_str(), "/dev/pts/4294967295");
}

#[test]
fn master_device_path() {
    assert_eq!(ptmx_path(), "/dev/ptmx");
}

#[test]
fn pump_proceeds_on_data_and_transients() {
    assert_eq!(pump_react(&SpliceOutcome::Moved(512)), PumpVerdict::Proceed);
    assert_eq!(pump_react(&SpliceOutcome::Moved(0)), PumpVerdict::Proceed);
    assert_eq!(pump_react(&SpliceOutcome::NotReady), PumpVerdict::Proceed);
}

#[test]
fn pump_aborts_on_broken_pipe() {
    assert_eq!(pump_react(&SpliceOutcome::Broken), PumpVerdict::Abort);
    assert_eq!(SPLICE_CHUNK, 1024);
}

#[test]
fn pump_stops_after_first_break() {
    // A pump loop driven by the library's verdicts: two good transfers,
    // then a broken pipe. It performs exactly three transfers, raises the
    // shared flag, and a pump that checks the flag first never transfers.
    let outcomes = [
        SpliceOutcome::Moved(10),
        SpliceOutcome::NotReady,
        SpliceOutcome::Broken,
        SpliceOutcome::Moved(5),
    ];
    let mut transfers = 0;
    let mut flag = false;
    for o in &outcomes {
        if flag {
            break;
        }
        transfers += 1;
        if pump_react(o) == PumpVerdict::Abort {
            flag = true;
        }
    }
    assert_eq!(transfers, 3);
    assert!(flag);
}

#[test]
fn descriptor_closes_once() {
    let mut d = FileDesc::new(5, true);
    assert_eq!(d.as_raw_fd(), 5);
    assert!(d.release());
    assert!(!d.release());
}

#[test]
fn descriptor_disowned_never_closes() {
    let mut d = FileDesc::new(5, true);
    assert_eq!(d.into_raw(), 5);
    assert!(!d.release());
}

#[test]
fn descriptor_without_obligation() {
    let mut d = FileDesc::new(3, false);
    assert!(!d.release());
}

#[test]
fn slave_claimed_exactly_once() {
    let master = FileDesc::new(10, true);
    let slave = FileDesc::new(11, true);
    let mut srv = TtyServer::from_pty(master, slave, pts_path(3));
    assert_eq!(srv.get_master(), 10);
    assert_eq!(srv.path(), "/dev/pts/3");
    match srv.claim_slave() {
        Ok(s) => assert_eq!(s.as_raw_fd(), 11),
        Err(_) => panic!("first claim found no slave"),
    }
    match srv.claim_slave() {
        Ok(_) => panic!("slave claimed twice"),
        Err(e) => assert_eq!(e.message(), "No TTY slave"),
    }
}

#[test]
fn take_slave_empties_the_server() {
    let master = FileDesc::new(20, true);
    let slave = FileDesc::new(21, true);
    let mut srv = TtyServer::from_pty(master, slave, pts_path(8));
    let taken = srv.take_slave();
    assert!(taken.is_some());
    assert_eq!(taken.unwrap().as_raw_fd(), 21);
    assert!(srv.take_slave().is_none());
    match srv.claim_slave() {
        Ok(_) => panic!("claim succeeded after take_slave"),
        Err(e) => assert_eq!(e.message(), "No TTY slave"),
    }
}

#[test]
fn teardown_settles_every_debt() {
    let mut st = ClientState::bind();
    let acts = st.terminate();
    assert!(acts.restore_peer);
    assert!(acts.close_master);
    assert!(acts.close_peer);
}

#[test]
fn shutdown_is_idempotent_before_teardown() {
    let mut st = ClientState::bind();
    st.mark_shutdown();
    st.mark_shutdown();
    let acts = st.terminate();
    assert!(acts.restore_peer);
    assert!(acts.close_master);
    assert!(acts.close_peer);
}

#[test]
fn winsize_carries_geometry() {
    let w = WinSize::new(40, 100, 0, 0);
    assert_eq!(w.row, 40);
    assert_eq!(w.col, 100);
    assert_eq!(w.xpixel, 0);
    assert_eq!(w.ypixel, 0);
    let same = WinSize::new(40, 100, 0, 0);
    assert_eq!(w, same);
}
