use atlas_observer::memory::reader::{RegionInfo, SessionScan};
use atlas_observer::game::state::{GameState, GameTimers, Player};
use atlas_observer::game::{GameChar, Moon};
use atlas_observer::memory::addresses::{ClientMode, GameMode, LocalPlayer};
use atlas_observer::memory::process::{
    game_state_from_reads, parse_player, read_client_mode, read_local_player, single_pid,
    CasterProbe, CasterSearch, MemoryError, CASTER,
};
use atlas_observer::memory::reader::{
    contains_str, find_module, is_readable_region, is_session_id, listed_module_count, module_file_name,
    next_region_address,
    scan_buffer_for_session_ids, MEM_COMMIT, PAGE_EXECUTE_READ, PAGE_READWRITE,
};
use atlas_observer::memory::thread::{
    attach_failure_step, clean_start_message, report_gamestate, session_poll_step, AttachStep,
    SessionPoll,
};

const ID_A: &[u8] = b"Ab1Cd2Ef3Gh4Ij5Kl6Mn7Op8Qr9St0x";
const ID_B: &[u8] = b"Zz9Yy8Xx7Ww6Vv5Uu4Tt3Ss2Rr1Qq0";

#[test]
fn session_id_pattern() {
    assert_eq!(ID_A.len(), 31);
    assert!(is_session_id(&ID_A[..30]));
    assert!(is_session_id(ID_A));
    assert!(is_session_id(&ID_B[..30]));
    assert!(!is_session_id(&ID_A[..29]));
    assert!(!is_session_id(&ID_A[1..31]));
    let mut lower_first = ID_B[..30].to_vec();
    lower_first[0] = b'z';
    assert!(!is_session_id(&lower_first));
    let mut bad_digit = ID_B[..30].to_vec();
    bad_digit[29] = b'a';
    assert!(!is_session_id(&bad_digit));
}

#[test]
fn scanning_finds_each_id_once_in_order() {
    let mut buffer = b"xx".to_vec();
    buffer.extend_from_slice(&ID_B[..30]);
    buffer.extend_from_slice(b"--");
    buffer.extend_from_slice(&ID_A[..30]);
    buffer.extend_from_slice(b"-");
    buffer.extend_from_slice(&ID_B[..30]);
    buffer.extend_from_slice(b"end");
    let mut found = vec!["Prev".to_string()];
    scan_buffer_for_session_ids(&buffer, &mut found);
    assert_eq!(
        found,
        vec![
            "Prev".to_string(),
            String::from_utf8(ID_B[..30].to_vec()).unwrap(),
            String::from_utf8(ID_A[..30].to_vec()).unwrap(),
        ]
    );
    // A second scan of the same buffer adds nothing.
    scan_buffer_for_session_ids(&buffer, &mut found);
    assert_eq!(found.len(), 3);
}

#[test]
fn scanning_adjacent_ids_finds_every_window() {
    let mut buffer = ID_A[..30].to_vec();
    buffer.extend_from_slice(&ID_B[..30]);
    let mut found = Vec::new();
    scan_buffer_for_session_ids(&buffer, &mut found);
    // Every third position between the two ids starts a session id too.
    assert_eq!(found.len(), 11);
    assert_eq!(found[0], "Ab1Cd2Ef3Gh4Ij5Kl6Mn7Op8Qr9St0");
    assert_eq!(found[1], "Cd2Ef3Gh4Ij5Kl6Mn7Op8Qr9St0Zz9");
    assert_eq!(found[10], "Zz9Yy8Xx7Ww6Vv5Uu4Tt3Ss2Rr1Qq0");
}

#[test]
fn scanning_a_short_buffer_adds_nothing() {
    let mut found = Vec::new();
    scan_buffer_for_session_ids(&ID_A[..29], &mut found);
    assert!(found.is_empty());
    scan_buffer_for_session_ids(&ID_A[..30], &mut found);
    assert_eq!(found.len(), 1);
}

#[test]
fn readable_regions() {
    assert!(is_readable_region(MEM_COMMIT, PAGE_READWRITE));
    assert!(is_readable_region(0x1000, 0x02));
    assert!(is_readable_region(0x1000, PAGE_EXECUTE_READ));
    assert!(is_readable_region(0x1000, 0x40));
    assert!(!is_readable_region(0x2000, PAGE_READWRITE));
    assert!(!is_readable_region(MEM_COMMIT, 0x01));
    assert!(!is_readable_region(MEM_COMMIT, 0x104));
}

#[test]
fn next_region_wraps_to_the_end() {
    assert_eq!(next_region_address(0x1000, 0x2000), Some(0x3000));
    assert_eq!(next_region_address(usize::MAX - 0xfff, 0x1000), None);
    assert_eq!(next_region_address(usize::MAX, 2), Some(1));
    assert_eq!(next_region_address(0, 0), None);
}

#[test]
fn substring_search() {
    assert!(contains_str("c:/games/cccaster.v3.1.exe", "cccaster"));
    assert!(contains_str("abc", ""));
    assert!(contains_str("abc", "abc"));
    assert!(!contains_str("abc", "abcd"));
    assert!(!contains_str("abc", "ac"));
}

#[test]
fn module_search_ignores_case() {
    let names = vec![
        Some("C:\\Windows\\ntdll.dll".to_string()),
        None,
        Some("C:\\Games\\CCCaster.v3.1.EXE".to_string()),
        Some("C:\\Games\\cccaster.v3.1.exe".to_string()),
    ];
    assert_eq!(find_module(&names, "cccaster").unwrap(), 2);
    assert_eq!(find_module(&names, "NTDLL").unwrap(), 0);
    let accented = vec![Some("C:\\Spiele\\Äpfel.EXE".to_string())];
    assert_eq!(find_module(&accented, "äPFEL").unwrap(), 0);
    match find_module(&names, "MBAA.exe") {
        Err(MemoryError::ModuleNotFound(t)) => assert_eq!(t, "MBAA.exe"),
        other => panic!("unexpected {:?}", other),
    }
}

#[test]
fn single_process() {
    assert_eq!(single_pid(&vec![42], "MBAA.exe").unwrap(), 42);
    match single_pid(&vec![], "MBAA.exe") {
        Err(MemoryError::ProcessNotFound(n)) => assert_eq!(n, "MBAA.exe"),
        other => panic!("unexpected {:?}", other),
    }
    match single_pid(&vec![1, 2], "MBAA.exe") {
        Err(MemoryError::MultipleProcessesError(n)) => assert_eq!(n, "MBAA.exe"),
        other => panic!("unexpected {:?}", other),
    }
}

#[test]
fn decoding_values_read_from_memory() {
    assert_eq!(read_local_player(0).unwrap(), LocalPlayer::Unknown);
    assert_eq!(read_local_player(2).unwrap(), LocalPlayer::P2);
    match read_local_player(7) {
        Err(MemoryError::ParseFailed(what, v)) => {
            assert_eq!(what, "local_player");
            assert_eq!(v, 7);
        }
        other => panic!("unexpected {:?}", other),
    }
    assert_eq!(read_client_mode(1).unwrap(), ClientMode::Host);
    assert_eq!(read_client_mode(2).unwrap(), ClientMode::Client);
    match read_client_mode(200) {
        Err(MemoryError::ParseFailed(what, v)) => {
            assert_eq!(what, "client mode");
            assert_eq!(v, 200);
        }
        other => panic!("unexpected {:?}", other),
    }
    assert_eq!(GameMode::from_raw(20), GameMode::CharSelect);
    assert_eq!(GameMode::from_raw(1), GameMode::InGame);
    assert_eq!(GameMode::from_raw(5), GameMode::Retry);
    assert_eq!(GameMode::from_raw(26), GameMode::ReplayMenu);
    assert_eq!(GameMode::from_raw(12345), GameMode::Unknown);
    assert!(GameMode::Retry.shows_match());
    assert!(!GameMode::CharSelect.shows_match());
    assert_eq!(LocalPlayer::P1.as_u8(), 1);
}

#[test]
fn characters_and_moons_roundtrip() {
    for id in 0..64u32 {
        if let Some(c) = GameChar::from_id(id) {
            assert_eq!(c.id(), id);
        }
    }
    assert_eq!(GameChar::from_id(3), Some(GameChar::Seifuku));
    assert_eq!(GameChar::from_id(16), None);
    for m in [Moon::Crescent, Moon::Full, Moon::Half] {
        assert_eq!(Moon::from_code(m.code()), Some(m));
    }
    assert_eq!(Moon::from_code(3), None);
}

#[test]
fn parsing_players() {
    assert_eq!(
        parse_player(13, 2, 1).unwrap(),
        Player { character: GameChar::Akiha, moon: Moon::Half, score: 1 }
    );
    match parse_player(99, 99, 0) {
        Err(MemoryError::ParseFailed(what, v)) => {
            assert_eq!(what, "character");
            assert_eq!(v, 99);
        }
        other => panic!("unexpected {:?}", other),
    }
    match parse_player(0, 9, 0) {
        Err(MemoryError::ParseFailed(what, v)) => {
            assert_eq!(what, "moon");
            assert_eq!(v, 9);
        }
        other => panic!("unexpected {:?}", other),
    }
}

#[test]
fn caster_search() {
    let mut s = CasterSearch::new();
    assert!(!s.observe(&CasterProbe::NotOpened));
    assert!(!s.observe(&CasterProbe::NoModule));
    match s.finish() {
        MemoryError::ProcessNotFound(n) => assert_eq!(n, CASTER),
        other => panic!("unexpected {:?}", other),
    }
    assert!(!s.observe(&CasterProbe::ClientMode(0)));
    assert!(matches!(s.finish(), MemoryError::InvalidCCCaster));
    assert!(!s.observe(&CasterProbe::Unreadable));
    assert!(!s.observe(&CasterProbe::ClientMode(77)));
    assert!(s.observe(&CasterProbe::ClientMode(2)));
}

#[test]
fn game_state_assembly() {
    let p = [
        Player { character: GameChar::Sion, moon: Moon::Full, score: 0 },
        Player { character: GameChar::Len, moon: Moon::Crescent, score: 1 },
    ];
    let s = game_state_from_reads(
        GameMode::InGame,
        LocalPlayer::P2,
        ClientMode::Client,
        Some((GameTimers::new(1, 2, 3), p)),
    );
    assert_eq!(*s.game_mode(), GameMode::InGame);
    assert_eq!(*s.client_mode(), ClientMode::Client);
    match s {
        GameState::InGame { timers, players, local_player, .. } => {
            assert_eq!(timers.world_timer(), 1);
            assert_eq!(timers.round_timer(), 2);
            assert_eq!(timers.real_timer(), 3);
            assert_eq!(players[1].character, GameChar::Len);
            assert_eq!(local_player, LocalPlayer::P2);
        }
        _ => panic!("expected in game"),
    }
    let s = game_state_from_reads(GameMode::CharSelect, LocalPlayer::P2, ClientMode::Host, None);
    match s {
        GameState::NotInGame { host_position, game_mode, .. } => {
            assert_eq!(host_position, 2);
            assert_eq!(game_mode, GameMode::CharSelect);
        }
        _ => panic!("expected not in game"),
    }
}

#[test]
fn watcher_messages() {
    assert_eq!(clean_start_message(true), "MBAA session detected. Restart MBAA.exe");
    assert_eq!(clean_start_message(false), "Waiting for MBAA and CCCaster");
    assert!(matches!(attach_failure_step(&MemoryError::InvalidCCCaster, false), (AttachStep::GiveUp, false)));
    match attach_failure_step(&MemoryError::MultipleProcessesError("MBAA.exe".to_string()), false) {
        (AttachStep::LogAndRetry(m), true) => assert_eq!(m, "Error: Multiple 'MBAA.exe' processes detected"),
        _ => panic!("expected a message"),
    }
    assert!(matches!(
        attach_failure_step(&MemoryError::MultipleProcessesError("MBAA.exe".to_string()), true),
        (AttachStep::Retry, true)
    ));
    assert!(matches!(
        attach_failure_step(&MemoryError::ProcessNotFound("MBAA.exe".to_string()), false),
        (AttachStep::Retry, false)
    ));
    assert_eq!(session_poll_step(2, 100), SessionPoll::Ready);
    assert_eq!(session_poll_step(0, 14), SessionPoll::Wait);
    assert_eq!(session_poll_step(0, 15), SessionPoll::TimedOut);
}

#[test]
fn reporting_game_states_once() {
    let not = GameState::NotInGame { game_mode: GameMode::CharSelect, client_mode: ClientMode::Host, host_position: 1 };
    let game = game_state_from_reads(
        GameMode::InGame,
        LocalPlayer::P1,
        ClientMode::Host,
        Some((GameTimers::new(0, 0, 0), [Player { character: GameChar::Sion, moon: Moon::Full, score: 0 }; 2])),
    );
    let mut was = true;
    assert_eq!(report_gamestate(&not, &mut was), Some("Waiting for the match to start..."));
    assert!(!was);
    assert_eq!(report_gamestate(&not, &mut was), None);
    assert_eq!(report_gamestate(&game, &mut was), Some("Playing a match..."));
    assert!(was);
    assert_eq!(report_gamestate(&game, &mut was), None);
}

#[test]
fn session_scan_over_regions() {
    let mut scan = SessionScan::new();
    assert_eq!(scan.next_query(), Some(0));
    // A region that is not committed is skipped.
    assert_eq!(scan.region(Some(RegionInfo { base: 0, size: 0x1000, state: 0x2000, protect: 0x04 })), None);
    assert_eq!(scan.next_query(), Some(0x1000));
    // A readable region is read.
    assert_eq!(
        scan.region(Some(RegionInfo { base: 0x1000, size: 0x1000, state: 0x1000, protect: 0x04 })),
        Some((0x1000, 0x1000))
    );
    scan.bytes(&ID_A[..30]);
    scan.bytes(&ID_A[..30]);
    assert_eq!(scan.next_query(), Some(0x2000));
    // The last region wraps to zero: the scan ends without reading it.
    assert_eq!(
        scan.region(Some(RegionInfo { base: usize::MAX - 0xfff, size: 0x1000, state: 0x1000, protect: 0x04 })),
        None
    );
    assert_eq!(scan.next_query(), None);
    assert_eq!(scan.results(), vec!["Ab1Cd2Ef3Gh4Ij5Kl6Mn7Op8Qr9St0".to_string()]);

    let mut scan = SessionScan::new();
    assert_eq!(scan.region(None), None);
    assert_eq!(scan.next_query(), None);
    assert!(scan.results().is_empty());
}

#[test]
fn module_count_is_capped_by_the_slots() {
    assert_eq!(listed_module_count(80, 8, 1024), 10);
    assert_eq!(listed_module_count(8 * 1024, 8, 1024), 1024);
    assert_eq!(listed_module_count(8 * 2000, 8, 1024), 1024);
    assert_eq!(listed_module_count(0, 4, 1024), 0);
    assert_eq!(listed_module_count(7, 8, 1024), 0);
}

#[test]
fn module_file_names_are_decoded() {
    assert_eq!(module_file_name(b""), None);
    assert_eq!(module_file_name(b"C:\\cccaster\\hook.dll"), Some("C:\\cccaster\\hook.dll".to_string()));
    assert_eq!(module_file_name(&[0x68, 0xff, 0x69]), Some(String::new()));
    assert_eq!(module_file_name("é.dll".as_bytes()), Some("é.dll".to_string()));
}
