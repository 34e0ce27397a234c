use ygopro::cli::{parse_cli_args, split_command_line, ArgsFormat, CliError};
use ygopro::constants::{CorePlayer, Duelstage, Hand, MasterRule, Mode, Position, Rule, WinReason};
use ygopro::deck::{
    check_deck_lflists, check_illegal_cards, check_rule, Deck, DeckError, DeckErrorType,
};
use ygopro::duel::{
    can_players_see_unmasked, dispatch_seats, CorePlayerToSendTarget, GameMessageTarget, MaymaskedMessage, SendableMessage,
    Sender,
};
use ygopro::extract::{response_of_flag, response_of_word, IntoResponse, Response as HandlerResponse};
use ygopro::lflist::{parse_lflist_content, LFList, HASH_INITIAL_VALUE};
use ygopro::processor::{HandlerEntry, MessageKey, Processor};
use ygopro::card::{Card, CardDatabase};
use ygopro::managers::{ConfigManager, DataManager, DeckManager};
use ygopro::strings_conf::load_strings_conf;
use ygopro::validation::{Outcome, ServerEvent, Validation, ValidationError, ValidationSummary};
use ygopro::engine::{ProcessResult, ProcessResultFlags};
use ygopro::message::ctos;
use ygopro::message::gm;
use ygopro::message::gm::{CardCode, Draw, GameMessage, Mask, MaskedClone, ShuffleHand};
use ygopro::message::stoc;
use ygopro::message::HostInfo;
use ygopro::random::{seed_from_bytes, DuelSeed};
use ygopro::replay::{ReplayData, ReplayHeader, REPLAY_V1, REPLAY_V2};
use ygopro::replay_body::{Replay, ReplayBody, ReplayDeck, ReplayError};
use ygopro::start_game::{
    build_deck, display_name, replay_seed, seed_generator, start_game_script, start_host_info, Command, Step,
};
use ygopro::ypk::{cdb_names, is_archive_extension, is_expansion_archive, read_from_archives};
use ygopro::replay_plugin::{file_name, on_generate_replay, players_text, replace_text, serialize, Configuration, replay_target, sanitize_file_name, Format};
use ygopro::response::{response_is_meaningful, BattleCommand, IdleCommand, Response};
use ygopro::single_duel::{
    default_query, hint_target, judge, refresh_after_move, should_match_end, to_core_player,
    to_net_player, to_player_index, Announce, HandOutcome, PlayerIndex, Room, Seat, SeatChange,
    SendTarget,
};
use ygopro::single_duel::{NewCard, DUEL_OPTION_PSEUDO_SHUFFLE_FLAG};
use ygopro::single_duel::{dispatch_response, masked_card_code, masked_card_code_towards, refresh_plan, waiting_player};
use ygopro::string::{cast_to_c_array, cast_to_fix_length_array, cast_to_string};

// ---------------------------------------------------------------------------
// Message types and bodies
// ---------------------------------------------------------------------------

#[test]
fn game_message_print_sizes() {
    println!("=== GM ===");
    println!("  {:30}: {:>4} bytes", "Hint", std::mem::size_of::<gm::Hint>());
    println!("  {:30}: {:>4} bytes", "Start", std::mem::size_of::<gm::Start>());
    println!("  {:30}: {:>4} bytes", "Win", std::mem::size_of::<gm::Win>());
    println!("  {:30}: {:>4} bytes", "SelectYesNo", std::mem::size_of::<gm::SelectYesNo>());
    println!("  {:30}: {:>4} bytes", "SelectPlace", std::mem::size_of::<gm::SelectPlace>());
    println!("  {:30}: {:>4} bytes", "NewPhase", std::mem::size_of::<gm::NewPhase>());
    println!("  {:30}: {:>4} bytes", "PositionChange", std::mem::size_of::<gm::PositionChange>());
    println!("  {:30}: {:>4} bytes", "Damage", std::mem::size_of::<gm::Damage>());
    println!("  {:30}: {:>4} bytes", "TagSwap", std::mem::size_of::<gm::TagSwap>());
    println!("  {:30}: {:>4} bytes", "MessageType", std::mem::size_of::<gm::MessageType>());
}

#[test]
fn server_to_client_print_sizes() {
    println!("=== STOC ===");
    println!("  {:30}: {:>4} bytes", "ErrorMessage", std::mem::size_of::<stoc::ErrorMessage>());
    println!("  {:30}: {:>4} bytes", "HandResult", std::mem::size_of::<stoc::HandResult>());
    println!("  {:30}: {:>4} bytes", "DeckCount", std::mem::size_of::<stoc::DeckCount>());
    println!("  {:30}: {:>4} bytes", "JoinGame", std::mem::size_of::<stoc::JoinGame>());
    println!("  {:30}: {:>4} bytes", "TimeLimit", std::mem::size_of::<stoc::TimeLimit>());
    println!("  {:30}: {:>4} bytes", "MessageType", std::mem::size_of::<stoc::MessageType>());
}

#[test]
fn test_message_type_basic() {
    let message_type = ctos::MessageType::CreateGame;
    let mut out: Vec<u8> = Vec::new();
    message_type.write(&mut out);
    assert_eq!(out, vec![17]);

    let message_type = ctos::MessageType::read(&[127]).unwrap();
    assert_eq!(message_type, ctos::MessageType::Unknown(127));
}

#[test]
fn test_message_enum_basic() {
    let message_enum = ctos::Message::HandResult(ctos::HandResult { res: Hand::Paper });
    let bytes = message_enum.to_bytes();
    println!("{:?}", bytes);
    assert_eq!(bytes, vec![3, 3]);
    assert_eq!(ctos::Message::read(&bytes).unwrap(), message_enum);
}

#[test]
fn message_type_unknown_flag_round_trip() {
    assert_eq!(gm::MessageType::from_u8(54), gm::MessageType::SetCard);
    assert_eq!(gm::MessageType::SetCard.to_u8(), 54);
    assert_eq!(gm::MessageType::from_u8(9), gm::MessageType::Unknown(9));
    assert_eq!(stoc::MessageType::from_u8(18), stoc::MessageType::JoinGame);
    assert_eq!(ctos::MessageType::read(&[]), Err(ygopro::bytes::ReadError::UnexpectedEnd));
}

#[test]
fn ctos_message_refuses_unknown_flag() {
    assert_eq!(ctos::Message::read(&[0x99]), Err(ygopro::bytes::ReadError::NoVariantMatch));
    assert_eq!(ctos::Message::read(&[3, 9]), Err(ygopro::bytes::ReadError::NoVariantMatch));
    assert_eq!(ctos::Message::read(&[3]), Err(ygopro::bytes::ReadError::UnexpectedEnd));
}

#[test]
fn game_message_body_round_trip() {
    let start = gm::Start {
        player_type: 0x10,
        rule: MasterRule::MasterRule2020,
        player1_lp: 8000,
        player2_lp: -5,
        player1_deck_count: 40,
        player1_extra_count: 15,
        player2_deck_count: 41,
        player2_extra_count: 0,
    };
    let bytes = start.to_bytes();
    assert_eq!(bytes.len(), 18);
    assert_eq!(&bytes[0..6], &[0x10, 5, 0x40, 0x1f, 0, 0]);
    assert_eq!(gm::Start::read(&bytes), Ok(start));
    let damage = gm::Damage { player: CorePlayer::SecondAttackPlayer, value: 1000 };
    assert_eq!(damage.to_bytes(), vec![1, 0xe8, 0x03, 0, 0]);
    assert_eq!(gm::Damage::read(&[7, 0, 0, 0, 0]), Err(ygopro::bytes::ReadError::NoVariantMatch));
    assert_eq!(gm::Damage::read(&[1, 0, 0]), Err(ygopro::bytes::ReadError::UnexpectedEnd));
}

#[test]
fn host_info_default_and_wire_form() {
    let info = HostInfo::default();
    assert_eq!(info.lflist, 0);
    assert_eq!(info.rule, Rule::OCG);
    assert_eq!(info.mode, Mode::Match);
    assert_eq!(info.duel_rule, MasterRule::MasterRule2020);
    assert_eq!(info.start_lp, 8000);
    assert_eq!(info.start_hand, 5);
    assert_eq!(info.draw_count, 1);
    assert_eq!(info.time_limit, 180);
    let bytes = info.to_bytes();
    assert_eq!(bytes.len(), 20);
    assert_eq!(bytes, vec![0, 0, 0, 0, 0, 1, 5, 0, 0, 0, 0, 0, 0x40, 0x1f, 0, 0, 5, 1, 180, 0]);
    assert_eq!(HostInfo::read(&bytes), Ok(info));
    let joined = stoc::JoinGame { info };
    assert_eq!(stoc::JoinGame::read(&joined.to_bytes()), Ok(joined));
}

#[test]
fn stoc_bodies() {
    let error = stoc::ErrorMessage { msg: 2, code: 0x1362 };
    assert_eq!(error.to_bytes(), vec![2, 0, 0, 0, 0x62, 0x13, 0, 0]);
    let time = stoc::TimeLimit { player: ygopro::constants::Netplayer::Player2, left_time: 300 };
    assert_eq!(time.to_bytes(), vec![1, 0, 0x2c, 1]);
    assert_eq!(stoc::TimeLimit::read(&time.to_bytes()), Ok(time));
    let game = stoc::GameMessage::read(&[3]);
    assert_eq!(game.message, vec![3]);
}

// ---------------------------------------------------------------------------
// Responses
// ---------------------------------------------------------------------------

#[test]
fn response_round_trips() {
    let cases = vec![
        (Response::SelectIdleCommand(IdleCommand::Activate, 3), gm::MessageType::SelectIdleCommand),
        (Response::SelectBattleCommand(BattleCommand::Attack, 1), gm::MessageType::SelectBattleCommand),
        (Response::SelectCards(vec![1, 2, 300]), gm::MessageType::SelectCard),
        (Response::SelectCounter(vec![7, 8]), gm::MessageType::SelectCounter),
        (Response::SortCards(vec![2, 1]), gm::MessageType::SortCard),
        (Response::AnnounceCard(89631139), gm::MessageType::AnnounceCard),
        (Response::SelectUnselectCards(4), gm::MessageType::SelectUnselectCard),
        (Response::SelectPlace(CorePlayer::SecondAttackPlayer, 4, 2), gm::MessageType::SelectPlace),
    ];
    for (response, message_type) in cases {
        let bytes = response.to_bytes();
        assert_eq!(bytes.len(), response.len());
        let back = Response::parse(&bytes, message_type).unwrap();
        assert_eq!(back.to_bytes(), bytes);
    }
}

#[test]
fn response_declines_and_errors() {
    let minus_one = [0xffu8, 0xff, 0xff, 0xff];
    assert!(matches!(Response::parse(&minus_one, gm::MessageType::SelectChain), Ok(Response::DeclineChain)));
    assert!(matches!(Response::parse(&minus_one, gm::MessageType::SelectCard), Ok(Response::Cancel)));
    assert!(matches!(Response::parse(&[0xff], gm::MessageType::SortCard), Ok(Response::KeepCardOrder)));
    assert!(matches!(Response::parse(&[0, 0, 0], gm::MessageType::SelectPlace), Ok(Response::DeclinePlace)));
    assert!(matches!(
        Response::parse(&[9, 0, 0, 0], gm::MessageType::SelectIdleCommand),
        Err(ygopro::bytes::ReadError::NoVariantMatch)
    ));
    assert!(matches!(
        Response::parse(&[2, 0, 1], gm::MessageType::SelectCard),
        Err(ygopro::bytes::ReadError::UnexpectedEnd)
    ));
    assert!(matches!(
        Response::parse(&[1], gm::MessageType::Hint),
        Err(ygopro::bytes::ReadError::NoVariantMatch)
    ));
    // a last odd byte is left out
    match Response::parse(&[1, 0, 2], gm::MessageType::SelectCounter) {
        Ok(Response::SelectCounter(v)) => assert_eq!(v, vec![1]),
        _ => panic!("counter response expected"),
    }
}

#[test]
fn response_resolve_and_meaning() {
    let mut raw = Response::Unknown(vec![5, 0, 1, 0]);
    assert!(raw.resolve(gm::MessageType::SelectIdleCommand).is_ok());
    assert!(matches!(raw, Response::SelectIdleCommand(IdleCommand::Activate, 1)));
    let mut bad = Response::Unknown(vec![1]);
    assert!(bad.resolve(gm::MessageType::SelectIdleCommand).is_err());
    assert!(matches!(bad, Response::Unknown(_)));
    assert!(!response_is_meaningful(&Response::SelectYesNo(true), gm::MessageType::Retry));
    assert!(!response_is_meaningful(&Response::DeclineChain, gm::MessageType::SelectChain));
    assert!(!response_is_meaningful(&Response::Cancel, gm::MessageType::SelectUnselectCard));
    assert!(response_is_meaningful(&Response::Cancel, gm::MessageType::SelectCard));
    assert!(!response_is_meaningful(
        &Response::Unknown(vec![6, 0, 0, 0]),
        gm::MessageType::SelectIdleCommand
    ));
    assert!(response_is_meaningful(
        &Response::Unknown(vec![1, 0, 0, 0]),
        gm::MessageType::SelectBattleCommand
    ));
}

// ---------------------------------------------------------------------------
// Decks
// ---------------------------------------------------------------------------

#[test]
fn splits_main_and_side_at_bang_marker() {
    let deck: Deck = "#created by test\n#main\n123\n456\n#extra\n789\n!side\n111\n222\n"
        .parse()
        .unwrap();
    assert_eq!(deck.main, vec![123, 456, 789]);
    assert!(deck.extra.is_empty());
    assert_eq!(deck.side, vec![111, 222]);
}

#[test]
fn drops_comment_blank_and_invalid_lines() {
    let deck: Deck = "   \n#comment\n123abc\nnot-a-number\n!side\n\nxyz\n".parse().unwrap();
    assert_eq!(deck.main, vec![123]);
    assert!(deck.side.is_empty());
}

#[test]
fn round_trips_through_to_string() {
    let deck: Deck = "#main\n1\n2\n3\n!side\n4\n".parse().unwrap();
    let text = deck.to_string();
    let reparsed: Deck = text.parse().unwrap();
    assert_eq!(reparsed.main, deck.main);
    assert_eq!(reparsed.extra, deck.extra);
    assert_eq!(reparsed.side, deck.side);
}

#[test]
fn deck_text_keeps_extra_after_main() {
    let mut deck = Deck::new();
    deck.main = vec![10, 20];
    deck.extra = vec![30];
    deck.side = vec![40];
    let back = Deck::from_text(&deck.to_string());
    assert_eq!(back.main, vec![10, 20, 30]);
    assert_eq!(back.side, vec![40]);
}

// ---------------------------------------------------------------------------
// Limit lists
// ---------------------------------------------------------------------------

#[test]
fn lflist_file_parses_lists() {
    let text = "#comment\n!2024.1\n100 0\n200 1\n300 3\n200 2\n!2024.4 TCG\n$genesys 100\n400 $genesys 7\n";
    let lists = parse_lflist_content(text);
    assert_eq!(lists.len(), 2);
    assert_eq!(lists[0].name, "2024.1");
    assert_eq!(lists[0].content, vec![(100, 0), (200, 2)]);
    assert_eq!(lists[0].genesys, 0);
    assert_eq!(lists[1].name, "2024.4 TCG");
    assert_eq!(lists[1].genesys, 100);
    assert_eq!(lists[1].glist, vec![(400, 7)]);
    let same = LFList::from("2024.1".to_string(), vec![(200, 2), (100, 0)], 0, vec![]);
    assert_eq!(lists[0].hash, same.hash);
    assert_ne!(lists[0].hash, HASH_INITIAL_VALUE);
    assert_eq!(LFList::new("x".to_string()).hash, HASH_INITIAL_VALUE);
}

#[test]
fn deck_manager_adds_no_list_entry() {
    let mut manager = DeckManager::new();
    manager.load_lflist(&vec!["!A\n1 1\n".to_string(), "!B\n".to_string()]);
    assert_eq!(manager.lflists.len(), 3);
    assert_eq!(manager.get_lflist_name(0), "A");
    assert_eq!(manager.get_lflist_name(2), "N/A");
    assert_eq!(manager.get_lflist(2).unwrap().hash, 0);
    assert_eq!(manager.get_lflist_name(3), "???");
    let mut empty = DeckManager::new();
    empty.load_lflist(&vec![]);
    assert_eq!(empty.lflists.len(), 0);
}

// ---------------------------------------------------------------------------
// Command line
// ---------------------------------------------------------------------------

fn args(list: &[&str]) -> Vec<String> {
    list.iter().map(|s| s.to_string()).collect()
}

#[test]
fn cli_single_port() {
    let manager = DeckManager::new();
    let server_arguments = parse_cli_args(&args(&["2334"]), ArgsFormat::default(), &manager, false).unwrap();
    assert_eq!(server_arguments.port, 2334);
    assert_eq!(server_arguments.base_path, "./");
    assert!(matches!(
        parse_cli_args(&args(&["x"]), ArgsFormat::Mycard, &manager, false),
        Err(CliError::InvalidPort(p)) if p == "x"
    ));
    assert!(matches!(
        parse_cli_args(&args(&["1", "2"]), ArgsFormat::Mycard, &manager, false),
        Err(CliError::BadParamCount)
    ));
    let none = parse_cli_args(&args(&[]), ArgsFormat::Mycard, &manager, false).unwrap();
    assert_eq!(none.port, 0);
}

#[test]
fn cli_full_line_with_seed() {
    let mut manager = DeckManager::new();
    manager.load_lflist(&vec!["!A\n".to_string()]);
    let line = args(&["7911", "0", "1", "2", "T", "T", "F", "4000", "6", "2", "240", "5", "AQAAAAIAAAA="]);
    let a = parse_cli_args(&line, ArgsFormat::Mycard, &manager, false).unwrap();
    assert_eq!(a.port, 7911);
    assert_eq!(a.host_info.lflist, manager.lflists[0].hash);
    assert_eq!(a.host_info.rule, Rule::TCG);
    assert_eq!(a.host_info.mode, Mode::Tag);
    assert_eq!(a.host_info.duel_rule, MasterRule::MasterRuleNew);
    assert!(a.host_info.no_check_deck);
    assert!(!a.host_info.no_shuffle_deck);
    assert_eq!(a.host_info.start_lp, 4000);
    assert_eq!(a.host_info.start_hand, 6);
    assert_eq!(a.host_info.draw_count, 2);
    assert_eq!(a.host_info.time_limit, 240);
    assert_eq!(a.replay_mode, 5);
    assert_eq!(a.seeds, vec![[1, 2, 0, 0, 0, 0, 0, 0]]);
    let bad_seed = args(&["7911", "0", "1", "2", "T", "T", "F", "4000", "6", "2", "240", "5", "!!"]);
    assert!(matches!(
        parse_cli_args(&bad_seed, ArgsFormat::Mycard, &manager, false),
        Err(CliError::InvalidSeed(s)) if s == "!!"
    ));
    assert!(matches!(
        parse_cli_args(&bad_seed, ArgsFormat::Unknown, &manager, false),
        Err(CliError::BadParamCount)
    ));
    let mobile = parse_cli_args(&bad_seed, ArgsFormat::Unknown, &manager, true).unwrap();
    assert_eq!(mobile.base_path, "!!");
    assert!(mobile.seeds.is_empty());
    let odd = args(&["1", "9", "x", "7", "x", "F", "F", "x", "x", "x", "x", "x"]);
    let d = parse_cli_args(&odd, ArgsFormat::Mycard, &manager, false).unwrap();
    assert_eq!(d.host_info.lflist, 0);
    assert_eq!(d.host_info.rule, Rule::OCG);
    assert_eq!(d.host_info.mode, Mode::Single);
    assert_eq!(d.host_info.duel_rule, MasterRule::MasterRule2020);
    assert_eq!(d.host_info.start_lp, 8000);
    assert_eq!(d.host_info.time_limit, 180);
}

#[test]
fn cli_mobile_line_skips_reserved_fields() {
    let manager = DeckManager::new();
    let line = args(&[
        "7911", "0", "0", "0", "5", "F", "F", "8000", "5", "1", "180", "0", "/sdcard/ygo", "r1", "r2",
        "AQAAAA==",
    ]);
    let a = parse_cli_args(&line, ArgsFormat::Mobile, &manager, false).unwrap();
    assert_eq!(a.base_path, "/sdcard/ygo");
    assert_eq!(a.seeds, vec![[1, 0, 0, 0, 0, 0, 0, 0]]);
    let short = args(&["7911", "0", "0", "0", "5", "F", "F", "8000", "5", "1", "180", "0", "/sdcard/ygo", "r1"]);
    assert!(parse_cli_args(&short, ArgsFormat::Mobile, &manager, false).unwrap().seeds.is_empty());
}

#[test]
fn split_command_line_groups_quotes() {
    assert_eq!(split_command_line("a  \"b c\" d\"\"e "), vec!["a", "b c", "de"]);
    assert!(split_command_line("   ").is_empty());
}

#[test]
fn seeds_from_bytes() {
    assert_eq!(seed_from_bytes(&[1, 0, 0, 0, 2, 0, 0, 0, 9]), [1, 2, 0, 0, 0, 0, 0, 0]);
    assert_eq!(DuelSeed::Single(7).seed_sequence(), [7; 8]);
    assert_eq!(DuelSeed::Complicated([1, 2, 3, 4, 5, 6, 7, 8]).seed_sequence(), [1, 2, 3, 4, 5, 6, 7, 8]);
    let _ = DuelSeed::Random.seed_sequence();
}

// ---------------------------------------------------------------------------
// Strings
// ---------------------------------------------------------------------------

#[test]
fn wire_strings() {
    assert_eq!(cast_to_c_array("Ab"), vec![65, 98, 0]);
    assert_eq!(cast_to_c_array("\u{1F600}"), vec![0xD83D, 0xDE00, 0]);
    let fixed: [u16; 4] = cast_to_fix_length_array("hi");
    assert_eq!(fixed, [104, 105, 0, 0]);
    assert_eq!(cast_to_string(&[0x41, 0x42, 0, 0x43]), Some("AB".to_string()));
    assert_eq!(cast_to_string(&[0x41, 0x42]), None);
    assert_eq!(cast_to_string(&[0xD800, 0]), None);
}

// ---------------------------------------------------------------------------
// Replays
// ---------------------------------------------------------------------------

#[test]
fn replay_header_reading() {
    let mut bytes = vec![0u8; 32];
    bytes[0..4].copy_from_slice(&REPLAY_V1.to_le_bytes());
    bytes[8] = 3;
    let header = ReplayHeader::read(&bytes).unwrap();
    assert!(header.is_compressed());
    assert!(header.is_tag());
    assert!(!header.is_decoded());
    assert!(!header.is_single_mode());
    assert!(!header.is_uniform());
    let mut out = Vec::new();
    header.write(&mut out);
    assert_eq!(out, bytes);
    let mut v2 = bytes.clone();
    v2[0..4].copy_from_slice(&REPLAY_V2.to_le_bytes());
    assert!(ReplayHeader::read(&v2).is_err());
    v2.extend(vec![1u8; 48]);
    let header2 = ReplayHeader::read(&v2).unwrap();
    assert_eq!(header2.header_version, 0x01010101);
    let record = ReplayData { data: vec![4, 5] };
    let mut out = Vec::new();
    record.write(&mut out);
    assert_eq!(out, vec![2, 4, 5]);
    let (back, used) = ReplayData::read(&out).unwrap();
    assert_eq!(back.data, vec![4, 5]);
    assert_eq!(used, 3);
}

#[test]
fn replay_plugin_rules() {
    assert_eq!("YgoPro".parse::<Format>(), Ok(Format::Ygopro));
    assert_eq!("raw".parse::<Format>(), Ok(Format::Raw));
    assert!("forge?".parse::<Format>().is_err());
    assert_eq!(replay_target(2, SendTarget::All), SendTarget::AllPlayer);
    assert_eq!(replay_target(1, SendTarget::All), SendTarget::All);
    let name: Vec<char> = "a/b?c*".chars().collect();
    assert_eq!(sanitize_file_name(&name), vec!['a', '_', 'b', '_', 'c', '_']);
}

// ---------------------------------------------------------------------------
// Handlers' answers
// ---------------------------------------------------------------------------

#[test]
fn handler_words() {
    assert!(matches!(response_of_word::<u8>("stop"), HandlerResponse::Stop));
    assert!(matches!(response_of_word::<u8>("kick"), HandlerResponse::Kick));
    assert!(matches!(response_of_word::<u8>("_cancel"), HandlerResponse::Swallow));
    assert!(matches!(response_of_word::<u8>("other"), HandlerResponse::Continue));
    assert!(matches!(response_of_flag::<u8>(true), HandlerResponse::Stop));
    let replaced: HandlerResponse<u8> = Some(3u8).into_response();
    assert!(matches!(replaced, HandlerResponse::Replace(3)));
}

// ---------------------------------------------------------------------------
// Duel room
// ---------------------------------------------------------------------------

#[test]
fn player_numbers_round_trip() {
    for first in [None, Some(PlayerIndex::Player1), Some(PlayerIndex::Player2)] {
        for p in [PlayerIndex::Player1, PlayerIndex::Player2] {
            assert_eq!(to_player_index(first, to_core_player(first, p)), Some(p));
        }
    }
    assert_eq!(to_core_player(Some(PlayerIndex::Player2), PlayerIndex::Player2), CorePlayer::FirstAttackPlayer);
    assert_eq!(to_net_player(Some(PlayerIndex::Player2), CorePlayer::FirstAttackPlayer), Seat::Player(1));
    assert_eq!(to_net_player(None, CorePlayer::All), Seat::Unknown);
    assert_eq!(PlayerIndex::Player1.opponent().opponent(), PlayerIndex::Player1);
}

#[test]
fn match_end_rules() {
    assert!(should_match_end(false, &vec![Some(PlayerIndex::Player1)], 0));
    assert!(!should_match_end(true, &vec![Some(PlayerIndex::Player1)], 0));
    assert!(should_match_end(true, &vec![Some(PlayerIndex::Player2), Some(PlayerIndex::Player2)], 0));
    assert!(!should_match_end(true, &vec![Some(PlayerIndex::Player2), None], 0));
    assert!(should_match_end(true, &vec![None, None, None], 0));
    assert!(should_match_end(true, &vec![], 1));
}

#[test]
fn rock_paper_scissors() {
    assert_eq!(judge(Hand::Rock, Hand::Scissor), HandOutcome::Win);
    assert_eq!(judge(Hand::Rock, Hand::Paper), HandOutcome::Lose);
    assert_eq!(judge(Hand::Paper, Hand::Paper), HandOutcome::Draw);
}

#[test]
fn routing_rules() {
    assert_eq!(hint_target(ygopro::constants::Hint::Card, Seat::Player(0)), SendTarget::All);
    assert_eq!(hint_target(ygopro::constants::Hint::Race, Seat::Player(1)), SendTarget::Except(Seat::Player(1)));
    assert_eq!(refresh_after_move((CorePlayer::FirstAttackPlayer, 1), (CorePlayer::FirstAttackPlayer, 4, 2)), (CorePlayer::FirstAttackPlayer, 4, 2));
    assert_eq!(refresh_after_move((CorePlayer::FirstAttackPlayer, 4), (CorePlayer::FirstAttackPlayer, 4, 2)), (CorePlayer::NoPlayer, 0, -1));
    assert_eq!(default_query(4), 0x800000 | 0x80000 | 0x1fff);
    assert!(ygopro::single_duel::is_face_down(Position::FacedownDefense));
}

#[test]
fn room_join_ready_start_and_leave() {
    let mut room = Room::new(false, HostInfo::default());
    let (seat, creator, broadcast, reply) = room.on_join_game(ygopro::single_duel::PRO_VERSION, true).unwrap();
    assert_eq!(seat, Seat::Player(0));
    assert!(creator);
    assert_eq!(broadcast, vec![(Announce::PlayerEnter(Seat::Player(0)), SendTarget::All)]);
    assert_eq!(reply[0], Announce::JoinGame);
    assert_eq!(room.host_player, Seat::Player(0));
    assert_eq!(room.on_join_game(1, true).unwrap_err(), true);
    assert_eq!(room.on_join_game(ygopro::single_duel::PRO_VERSION, false).unwrap_err(), false);
    let (seat2, creator2, _, _) = room.on_join_game(ygopro::single_duel::PRO_VERSION, true).unwrap();
    assert_eq!(seat2, Seat::Player(1));
    assert!(!creator2);
    let (seat3, _, broadcast3, _) = room.on_join_game(ygopro::single_duel::PRO_VERSION, true).unwrap();
    assert_eq!(seat3, Seat::Observer(0));
    assert_eq!(broadcast3, vec![(Announce::WatchChange(1), SendTarget::All)]);
    let deck = |main: Vec<u32>, extra: Vec<u32>| Deck { main, side: vec![], extra };
    room.on_update_deck(PlayerIndex::Player1, deck(vec![1, 2, 3], vec![9]), true);
    room.on_update_deck(PlayerIndex::Player2, deck(vec![4, 5], vec![]), true);
    assert_eq!(room.decks[0].main, vec![1, 2, 3]);
    let told = room.on_hs_ready(PlayerIndex::Player1, Some(Ok(())));
    assert_eq!(told, vec![(Announce::PlayerChange(Seat::Player(0), SeatChange::Ready), SendTarget::All)]);
    room.on_hs_ready(PlayerIndex::Player2, Some(Ok(())));
    let start = room.on_hs_start(Seat::Player(0), [(40, 0, 15), (41, 2, 0)]);
    assert_eq!(start.len(), 4);
    assert_eq!(room.stage, Duelstage::Finger);
    room.on_hand_result(PlayerIndex::Player1, Hand::Rock);
    let (winner, _) = room.on_hand_result(PlayerIndex::Player2, Hand::Scissor);
    assert_eq!(winner, Some(PlayerIndex::Player1));
    assert_eq!(room.stage, Duelstage::Firstgo);
    let (types, plan) =
        room.on_tp_result(PlayerIndex::Player1, CorePlayer::SecondAttackPlayer, vec![3, 1, 2], vec![5, 4]).unwrap();
    assert_eq!(room.first_attack_player, Some(PlayerIndex::Player2));
    assert_eq!(types[0], (0, SendTarget::Single(Seat::Player(1))));
    assert_eq!(types[2], (0x11, SendTarget::AllObserver));
    assert_eq!(room.decks[0].main, vec![3, 1, 2]);
    let card = |code: u32, owner: CorePlayer, location: u8| NewCard { code, owner, location };
    assert_eq!(
        plan.cards,
        vec![
            card(4, CorePlayer::FirstAttackPlayer, 1),
            card(5, CorePlayer::FirstAttackPlayer, 1),
            card(2, CorePlayer::SecondAttackPlayer, 1),
            card(1, CorePlayer::SecondAttackPlayer, 1),
            card(3, CorePlayer::SecondAttackPlayer, 1),
            card(9, CorePlayer::SecondAttackPlayer, 64),
        ]
    );
    assert_eq!(plan.options, 0);
    let (again, said) = room.on_surrender(PlayerIndex::Player2);
    assert!(!again);
    assert_eq!(said[0], (Announce::Win(CorePlayer::SecondAttackPlayer, WinReason::OpponentSurrender), SendTarget::All));
    assert_eq!(room.stage, Duelstage::End);
    assert_eq!(room.duel_winner, vec![Some(PlayerIndex::Player1)]);
    let (closes, _) = room.on_leave_game(Seat::Observer(0));
    assert!(!closes);
    assert_eq!(room.observers, vec![false]);
}

#[test]
fn room_host_leaves_waiting_room() {
    let mut room = Room::new(true, HostInfo::default());
    room.on_join_game(ygopro::single_duel::PRO_VERSION, true).unwrap();
    room.on_join_game(ygopro::single_duel::PRO_VERSION, true).unwrap();
    let (closes, said) = room.on_leave_game(Seat::Player(0));
    assert!(!closes);
    assert_eq!(room.host_player, Seat::Player(1));
    assert_eq!(said[0], (Announce::TypeChange(Seat::Player(1), true), SendTarget::Single(Seat::Player(1))));
    assert_eq!(said[1], (Announce::PlayerChange(Seat::Player(0), SeatChange::Leave), SendTarget::All));
    let (closes, _) = room.on_leave_game(Seat::Player(1));
    assert!(closes);
}

// ---------------------------------------------------------------------------
// Settings, strings, engine answers
// ---------------------------------------------------------------------------

#[test]
fn config_lines_set_and_override() {
    let mut config = ConfigManager::new();
    config.load("# comment\n  port = 7911 \nname=room=1\nnot a setting\n\nport=7912\n");
    assert_eq!(config.get("port"), Some("7912"));
    assert_eq!(config.get("name"), Some("room=1"));
    assert_eq!(config.get("not a setting"), None);
    assert_eq!(config.get_or("missing", "fallback"), "fallback");
    assert_eq!(config.get_or("port", "fallback"), "7912");
    assert_eq!(config.entries.len(), 2);
}

#[test]
fn strings_file_by_category_and_id() {
    let strings = load_strings_conf("#comment\n!system 1 Hello world\n!victory -5 Lost\n!setname 0x10 bad\n!counter +7\n!system 1 Again\n!lonely\nplain line\n");
    assert_eq!(strings.entries.len(), 3);
    assert_eq!(strings.entries[0], ("system".to_string(), 1, "Again".to_string()));
    assert_eq!(strings.entries[1], ("victory".to_string(), -5, "Lost".to_string()));
    assert_eq!(strings.entries[2], ("counter".to_string(), 7, "".to_string()));
}

#[test]
fn engine_answer_bits() {
    assert_eq!(ProcessResult::from_bits(0x0000_0010), Some(ProcessResult { data_length: 16, flags: ProcessResultFlags::Continue }));
    assert_eq!(ProcessResult::from_bits(0x1000_0004), Some(ProcessResult { data_length: 4, flags: ProcessResultFlags::Waiting }));
    assert_eq!(ProcessResult::from_bits(0x2FFF_FFFF), Some(ProcessResult { data_length: 0x0FFF_FFFF, flags: ProcessResultFlags::End }));
    assert_eq!(ProcessResult::from_bits(0x3000_0000), None);
}

// ---------------------------------------------------------------------------
// Replay check
// ---------------------------------------------------------------------------

#[test]
fn replay_check_passes_when_answers_match() {
    assert_eq!(Validation::start(true, 3), Err(ValidationError::TagReplayNotSupported));
    assert_eq!(Validation::start(false, 0), Err(ValidationError::EmptyReplay));
    let mut v = Validation::start(false, 2).unwrap();
    assert_eq!(v.on_message(ServerEvent::OtherGameMessage), Ok(Outcome::Continue));
    assert_eq!(v.on_message(ServerEvent::Prompt), Ok(Outcome::SendNext));
    assert_eq!(v.on_message(ServerEvent::Prompt), Ok(Outcome::SendNext));
    assert_eq!(v.on_message(ServerEvent::Win(CorePlayer::SecondAttackPlayer)), Ok(Outcome::Continue));
    assert_eq!(v.on_message(ServerEvent::DuelEnd), Ok(Outcome::DuelEnded));
    assert_eq!(v.finish(), Ok(ValidationSummary { response_count: 2, winner: Some(Seat::Player(1)), replayed_to_end: false }));
}

#[test]
fn replay_check_failures() {
    let mut v = Validation::start(false, 3).unwrap();
    assert_eq!(v.on_message(ServerEvent::Prompt), Ok(Outcome::SendNext));
    assert_eq!(v.on_message(ServerEvent::Retry), Err(ValidationError::Retry));
    assert_eq!(v.on_message(ServerEvent::ErrorMessage), Err(ValidationError::ServerRejected));
    assert_eq!(v.finish(), Err(ValidationError::NoWin));
    assert_eq!(v.on_message(ServerEvent::Win(CorePlayer::FirstAttackPlayer)), Ok(Outcome::Continue));
    assert_eq!(v.finish(), Err(ValidationError::LeftoverResponses(2)));
    let mut w = Validation::start(false, 1).unwrap();
    assert_eq!(w.on_message(ServerEvent::Prompt), Ok(Outcome::SendNext));
    assert_eq!(w.on_message(ServerEvent::Prompt), Ok(Outcome::ReplayEnded));
    assert_eq!(w.finish(), Ok(ValidationSummary { response_count: 1, winner: None, replayed_to_end: true }));
}

// ---------------------------------------------------------------------------
// Routing of the duel's messages
// ---------------------------------------------------------------------------

#[test]
fn recipients_of_targets() {
    let mut room = Room::new(false, HostInfo::default());
    room.on_join_game(ygopro::single_duel::PRO_VERSION, true).unwrap();
    room.on_join_game(ygopro::single_duel::PRO_VERSION, true).unwrap();
    room.on_join_game(ygopro::single_duel::PRO_VERSION, true).unwrap();
    room.on_join_game(ygopro::single_duel::PRO_VERSION, true).unwrap();
    room.on_leave_game(Seat::Observer(0));
    assert_eq!(room.recipients(SendTarget::All), vec![Seat::Player(0), Seat::Player(1), Seat::Observer(1)]);
    assert_eq!(room.recipients(SendTarget::Except(Seat::Player(0))), vec![Seat::Player(1), Seat::Observer(1)]);
    assert_eq!(room.recipients(SendTarget::Except(Seat::Observer(1))), vec![Seat::Player(0), Seat::Player(1), Seat::Observer(1)]);
    assert_eq!(room.recipients(SendTarget::AllPlayer), vec![Seat::Player(0), Seat::Player(1)]);
    assert_eq!(room.recipients(SendTarget::AllObserver), vec![Seat::Observer(1)]);
    assert_eq!(room.recipients(SendTarget::Single(Seat::Observer(0))), Vec::<Seat>::new());
    assert_eq!(room.recipients(SendTarget::Single(Seat::Player(1))), vec![Seat::Player(1)]);
    assert_eq!(room.recipients(SendTarget::Nobody), Vec::<Seat>::new());
}

#[test]
fn refresh_plans_and_hidden_codes() {
    assert_eq!(refresh_plan(CorePlayer::FirstAttackPlayer, 0x04 | 0x02 | 0x10), vec![
        (CorePlayer::FirstAttackPlayer, 0x04),
        (CorePlayer::FirstAttackPlayer, 0x02),
        (CorePlayer::FirstAttackPlayer, 0x10),
    ]);
    assert_eq!(refresh_plan(CorePlayer::All, 0x40), vec![
        (CorePlayer::FirstAttackPlayer, 0x40),
        (CorePlayer::SecondAttackPlayer, 0x40),
    ]);
    assert_eq!(refresh_plan(CorePlayer::SecondAttackPlayer, 0), vec![]);
    assert_eq!(masked_card_code(0x8123_4567), 0x8000_0000);
    assert_eq!(masked_card_code_towards(0x8123_4567), 0x8123_4567);
    assert_eq!(masked_card_code_towards(0x0123_4567), 0);
    assert_eq!(waiting_player(SendTarget::Single(Seat::Player(1))), Some(PlayerIndex::Player2));
    assert_eq!(waiting_player(SendTarget::All), None);
}

#[test]
fn handler_answers_become_plans() {
    let plan = dispatch_response(HandlerResponse::ReplaceMultiple(vec![1u8, 2, 3]));
    assert_eq!(plan.replies, vec![1, 2, 3]);
    assert!(!plan.kick && !plan.stop);
    let plan = dispatch_response(HandlerResponse::Replace(9u8));
    assert_eq!(plan.replies, vec![9]);
    let plan = dispatch_response(HandlerResponse::<u8>::Kick);
    assert!(plan.kick && !plan.stop && plan.replies.is_empty());
    let plan = dispatch_response(HandlerResponse::<u8>::Stop);
    assert!(plan.stop && !plan.kick);
    let plan = dispatch_response(HandlerResponse::<u8>::Swallow);
    assert!(!plan.stop && !plan.kick && plan.replies.is_empty());
}

#[test]
fn duelist_leaving_a_duel_loses_it() {
    let mut room = Room::new(false, HostInfo::default());
    room.on_join_game(ygopro::single_duel::PRO_VERSION, true).unwrap();
    room.on_join_game(ygopro::single_duel::PRO_VERSION, true).unwrap();
    room.on_hs_ready(PlayerIndex::Player1, Some(Ok(())));
    room.on_hs_ready(PlayerIndex::Player2, Some(Ok(())));
    room.on_hs_start(Seat::Player(0), [(40, 0, 15), (40, 0, 15)]);
    room.on_hand_result(PlayerIndex::Player1, Hand::Paper);
    room.on_hand_result(PlayerIndex::Player2, Hand::Rock);
    let mut info = HostInfo::default();
    info.no_shuffle_deck = true;
    room.host_info = info;
    let (_, plan) = room.on_tp_result(PlayerIndex::Player1, CorePlayer::FirstAttackPlayer, vec![], vec![]).unwrap();
    assert_eq!(plan.options, DUEL_OPTION_PSEUDO_SHUFFLE_FLAG);
    let (closes, said) = room.on_leave_game(Seat::Player(1));
    assert!(closes);
    let n = said.len();
    assert_eq!(said[n - 2], (Announce::Win(CorePlayer::FirstAttackPlayer, WinReason::OpponentLeave), SendTarget::All));
    assert_eq!(said[n - 1], (Announce::DuelEnd, SendTarget::All));
    assert!(room.players[1].is_none());
}

// ---------------------------------------------------------------------------
// Masking game messages
// ---------------------------------------------------------------------------

#[test]
fn card_code_masks() {
    let mut hidden = CardCode { value: 0x0123_4567 };
    assert_eq!(hidden.id(), 0x0123_4567);
    assert!(!hidden.is_public());
    let copy = hidden.clone_masked();
    assert_eq!(copy.value, 0);
    hidden.mask_towards(CorePlayer::FirstAttackPlayer);
    assert_eq!(hidden.value, 0);
    let mut public = CardCode { value: 0x8000_0042 };
    public.mask_towards(CorePlayer::SecondAttackPlayer);
    assert_eq!(public.value, 0x8000_0042);
    public.mask();
    assert_eq!(public.value, 0x8000_0000);
    let mut code = CardCode::new();
    code.set_id(89631139);
    assert_eq!(code.id(), 89631139);
}

#[test]
fn draw_message_wire_form_and_mask() {
    let draw = Draw { player: CorePlayer::SecondAttackPlayer, codes: vec![CardCode { value: 89631139 }, CardCode { value: 0x8000_0001 }] };
    let bytes = draw.to_bytes();
    assert_eq!(bytes, vec![1, 2, 0xA3, 0xA9, 0x57, 0x05, 0x01, 0x00, 0x00, 0x80]);
    let back = Draw::read(&bytes).unwrap();
    assert_eq!(back.player, CorePlayer::SecondAttackPlayer);
    assert_eq!(back.codes, draw.codes);
    assert!(Draw::read(&bytes[..9]).is_err());
    assert!(draw.should_mask(CorePlayer::FirstAttackPlayer));
    assert!(!draw.should_mask(CorePlayer::SecondAttackPlayer));
    let masked = draw.clone_masked();
    assert_eq!(masked.codes, vec![CardCode { value: 0 }, CardCode { value: 0x8000_0000 }]);
    let shuffle = ShuffleHand { player: CorePlayer::FirstAttackPlayer, count: 1, codes: vec![CardCode { value: 7 }] };
    let back = ShuffleHand::read(&shuffle.to_bytes()).unwrap();
    assert_eq!((back.player, back.count, back.codes), (CorePlayer::FirstAttackPlayer, 1, vec![CardCode { value: 7 }]));
}

#[test]
fn maymasked_message_forms() {
    let draw = Draw { player: CorePlayer::FirstAttackPlayer, codes: vec![CardCode { value: 12345 }] };
    let seen = can_players_see_unmasked(&draw, Some(PlayerIndex::Player2));
    assert_eq!(seen, vec![false, true]);
    let message = MaymaskedMessage::new(draw, seen);
    assert_eq!(message.resolve(Seat::Player(1)).codes[0].value, 12345);
    assert_eq!(message.resolve(Seat::Player(0)).codes[0].value, 0);
    assert_eq!(message.resolve(Seat::Observer(0)).codes[0].value, 0);
    let inner = message.into_inner(Seat::Player(1));
    assert_eq!(inner.codes[0].value, 12345);
}

#[test]
fn sender_records_game_messages() {
    let mut sender: Sender<Draw> = Sender::new();
    sender.player_count = 2;
    sender.observers = vec![true, false, true];
    let draw = Draw { player: CorePlayer::FirstAttackPlayer, codes: vec![CardCode { value: 12345 }] };
    let seen = can_players_see_unmasked(&draw, Some(PlayerIndex::Player2));
    let (to, kept) = sender.send_game_message(draw, GameMessageTarget::Seats(SendTarget::All), seen, &Room::new(false, HostInfo::default()));
    assert_eq!(
        to,
        vec![(Seat::Player(0), false), (Seat::Player(1), true), (Seat::Observer(0), false), (Seat::Observer(2), false)]
    );
    assert!(kept.is_none());
    assert_eq!(sender.messages.len(), 1);
    assert_eq!(sender.messages[0].codes[0].value, 12345);
    assert_eq!(sender.masked_messages.len(), 1);
    assert_eq!(sender.masked_messages[0].codes[0].value, 0);
    let mut room = Room::new(false, HostInfo::default());
    room.first_attack_player = Some(PlayerIndex::Player2);
    let second = Draw { player: CorePlayer::SecondAttackPlayer, codes: vec![] };
    let (to, _) = sender.send_game_message(second, GameMessageTarget::Core(CorePlayer::FirstAttackPlayer), vec![true, true], &room);
    assert_eq!(to, vec![(Seat::Player(1), true)]);
    assert_eq!(sender.messages.len(), 2);
    assert_eq!(sender.masked_messages.len(), 2);
}

#[test]
fn value_game_messages_wire_forms() {
    let option = gm::SelectOption { selecting_player: CorePlayer::SecondAttackPlayer, options: vec![-1, 256] };
    let bytes = option.to_bytes();
    assert_eq!(bytes, vec![1, 2, 0xFF, 0xFF, 0xFF, 0xFF, 0x00, 0x01, 0x00, 0x00]);
    let back = gm::SelectOption::read(&bytes).unwrap();
    assert_eq!(back.options, vec![-1, 256]);
    assert!(gm::SelectOption::read(&bytes[..9]).is_err());
    let coin = gm::TossCoin { player: CorePlayer::FirstAttackPlayer, result: vec![1, -2] };
    assert_eq!(coin.to_bytes(), vec![0, 2, 1, 0xFE]);
    assert_eq!(gm::TossCoin::read(&coin.to_bytes()).unwrap().result, vec![1, -2]);
    let hands = gm::HandResult { hand0: Hand::Paper, hand1: Hand::Scissor };
    assert_eq!(hands.to_bytes(), vec![3 | (1 << 2)]);
    let back = gm::HandResult::read(&[3 | (1 << 2)]).unwrap();
    assert_eq!((back.hand0, back.hand1), (Hand::Paper, Hand::Scissor));
    assert!(gm::HandResult::read(&[0]).is_err());
    let field = gm::ReloadField { duel_rule: MasterRule::MasterRule2020, player1_lp: 8000, data: vec![9, 9] };
    let bytes = field.to_bytes();
    assert_eq!(bytes.len(), 7);
    let back = gm::ReloadField::read(&bytes).unwrap();
    assert_eq!((back.duel_rule, back.player1_lp, back.data), (MasterRule::MasterRule2020, 8000, vec![9, 9]));
    assert_eq!(gm::CustomMsg::read(&[4, 5]).data, vec![4, 5]);
    let masked = option.clone_masked();
    assert_eq!(masked.options, vec![-1, 256]);
    assert!(!option.should_mask(CorePlayer::FirstAttackPlayer));
}

#[test]
fn sender_keeps_prompts_out_of_the_masked_log() {
    let mut sender: Sender<gm::SelectYesNo> = Sender::new();
    sender.player_count = 2;
    let prompt = gm::SelectYesNo { selecting_player: CorePlayer::FirstAttackPlayer, description: 7 };
    assert!(prompt.waiting_for_answer());
    let (to, kept) = sender.send_game_message(prompt, GameMessageTarget::Seats(SendTarget::AllPlayer), vec![true, true], &Room::new(false, HostInfo::default()));
    assert_eq!(to, vec![(Seat::Player(0), true), (Seat::Player(1), true)]);
    assert_eq!(kept.unwrap().description, 7);
    assert_eq!(sender.messages.len(), 1);
    assert!(sender.masked_messages.is_empty());
    let mut turns: Sender<gm::NewTurn> = Sender::new();
    let turn = gm::NewTurn { player: CorePlayer::SecondAttackPlayer };
    assert!(!turn.waiting_for_answer());
    let (to, kept) = turns.send_game_message(turn, GameMessageTarget::Seats(SendTarget::All), vec![], &Room::new(false, HostInfo::default()));
    assert!(to.is_empty());
    assert!(kept.is_none());
    assert_eq!(turns.masked_messages.len(), 1);
}

#[test]
fn place_game_messages_and_their_masks() {
    let place = |controller: CorePlayer, location: u8, position: Position| gm::CardPlace { controller, location, sequence: 3, position };
    let moved = gm::Move {
        code: 89631139,
        previous: place(CorePlayer::FirstAttackPlayer, 1, Position::FacedownDefense),
        current: place(CorePlayer::FirstAttackPlayer, 2, Position::FaceupAttack),
        reason: 0x40,
    };
    let bytes = moved.to_bytes();
    assert_eq!(bytes.len(), 16);
    assert_eq!(&bytes[4..8], &[0, 1, 3, 8]);
    let back = gm::Move::read(&bytes).unwrap();
    assert_eq!(back, moved);
    assert!(gm::Move::read(&bytes[..15]).is_err());
    assert!(moved.should_mask(CorePlayer::SecondAttackPlayer));
    assert!(!moved.should_mask(CorePlayer::FirstAttackPlayer));
    assert_eq!(moved.clone_masked().code, 0);
    let to_grave = gm::Move { current: place(CorePlayer::FirstAttackPlayer, 16, Position::FaceupAttack), ..moved };
    assert!(!to_grave.should_mask(CorePlayer::SecondAttackPlayer));
    let to_field = gm::Move { current: place(CorePlayer::FirstAttackPlayer, 4, Position::FacedownDefense), ..moved };
    assert!(to_field.should_mask(CorePlayer::SecondAttackPlayer));
    let set = gm::SetCard { code: 5, place: place(CorePlayer::SecondAttackPlayer, 8, Position::FacedownDefense) };
    assert_eq!(gm::SetCard::read(&set.to_bytes()).unwrap(), set);
    assert!(set.should_mask(CorePlayer::SecondAttackPlayer));
    assert_eq!(set.clone_masked().code, 0);
    let summon = gm::SpecialSummoning { code: CardCode { value: 0x8000_0007 }, place: place(CorePlayer::FirstAttackPlayer, 4, Position::FacedownDefense) };
    assert_eq!(gm::SpecialSummoning::read(&summon.to_bytes()).unwrap(), summon);
    assert!(summon.should_mask(CorePlayer::FirstAttackPlayer));
    assert_eq!(summon.clone_masked().code.value, 0x8000_0000);
    let open = gm::SpecialSummoning { place: place(CorePlayer::FirstAttackPlayer, 4, Position::FaceupAttack), ..summon };
    assert!(!open.should_mask(CorePlayer::SecondAttackPlayer));
}

#[test]
fn trait_conversions_follow_their_contracts() {
    let d: Deck = "#main\n7\n!side\n8\n".parse().unwrap();
    assert_eq!((d.main, d.extra, d.side), (vec![7], vec![], vec![8]));
    let f: Format = "YGOPRO".parse().unwrap();
    assert!(matches!(f, Format::Ygopro));
    assert!("zip".parse::<Format>().is_err());
    assert!(matches!(IntoResponse::<HandlerResponse<u8>>::into_response(()), HandlerResponse::Continue));
    assert!(matches!(IntoResponse::<HandlerResponse<u8>>::into_response(true), HandlerResponse::Stop));
    assert!(matches!(IntoResponse::<HandlerResponse<u8>>::into_response(false), HandlerResponse::Continue));
    assert!(matches!(IntoResponse::<HandlerResponse<u8>>::into_response("kick"), HandlerResponse::Kick));
}

// ---------------------------------------------------------------------------
// Message keys
// ---------------------------------------------------------------------------

#[test]
fn join_game_is_message_key() {
    let join = ctos::JoinGame {
        version: 0x1338,
        gameid: 0,
        pass: cast_to_fix_length_array::<20>(""),
    };
    let key: u8 = join.message_key();
    assert_eq!(key, 18);
}

#[test]
fn message_keys_are_flag_bytes() {
    assert_eq!(7u8.message_key(), 7);
    assert_eq!(gm::MessageType::Draw.message_key(), 90);
    assert_eq!(stoc::MessageType::JoinGame.message_key(), stoc::JoinGame::message_type().message_key());
    assert_eq!(ctos::Message::HsKick(ctos::HsKick { pos: 1 }).message_key(), 36);
    assert_eq!(gm::Win { winner: CorePlayer::FirstAttackPlayer, reason: WinReason::OpponentSurrender }.message_key(), 5);
}

#[test]
fn join_game_wire_form() {
    let join = ctos::JoinGame { version: 0x1362, gameid: 0x01020304, pass: cast_to_fix_length_array::<20>("ab") };
    let bytes = join.to_bytes();
    assert_eq!(bytes.len(), 48);
    assert_eq!(&bytes[..12], &[0x62, 0x13, 0, 0, 4, 3, 2, 1, 0x61, 0, 0x62, 0]);
    let back = ctos::JoinGame::read(&bytes).unwrap();
    assert_eq!((back.version, back.gameid, back.pass), (join.version, join.gameid, join.pass));
    assert!(ctos::JoinGame::read(&bytes[..47]).is_err());
}

// ---------------------------------------------------------------------------
// Replay bodies and files
// ---------------------------------------------------------------------------

fn name(text: &str) -> [u16; 20] {
    cast_to_fix_length_array::<20>(text)
}

fn sample_body(tag: bool) -> ReplayBody {
    ReplayBody {
        host_name: name("host"),
        tag_host_name: if tag { Some(name("tag host")) } else { None },
        tag_client_name: if tag { Some(name("tag client")) } else { None },
        client_name: name("client"),
        start_lp: 8000,
        start_hand: 5,
        draw_count: 1,
        duel_options: 0x10,
        duel_rule: 5,
        host_deck: ReplayDeck { main: vec![1, 2, 3], extra: vec![9] },
        tag_host_deck: if tag { Some(ReplayDeck { main: vec![4], extra: vec![] }) } else { None },
        tag_client_deck: if tag { Some(ReplayDeck { main: vec![], extra: vec![8] }) } else { None },
        client_deck: ReplayDeck { main: vec![7, 6], extra: vec![] },
        datas: vec![ReplayData { data: vec![1, 2] }, ReplayData { data: vec![] }],
    }
}

fn header(flag: u32, data_size: u32) -> ReplayHeader {
    ReplayHeader {
        id: REPLAY_V1,
        version: 0x1362,
        flag,
        seed: 0,
        data_size,
        start_time: 0,
        props: [0x5d, 0, 0, 0x80, 0, 0, 0, 0],
        seed_sequence: [0; 8],
        header_version: 0,
        reserved: [0; 3],
    }
}

#[test]
fn replay_body_round_trip() {
    for tag in [false, true] {
        let body = sample_body(tag);
        let mut bytes = Vec::new();
        body.write(&mut bytes, tag);
        let expected = 80 + if tag { 80 } else { 0 } + 16 + 40 + if tag { 24 } else { 0 } + 4;
        assert_eq!(bytes.len(), expected);
        let back = ReplayBody::read(&bytes, tag).unwrap();
        assert_eq!(back.host_name, body.host_name);
        assert_eq!(back.tag_client_name, body.tag_client_name);
        assert_eq!(back.client_deck.main, vec![7, 6]);
        assert_eq!(back.datas.len(), 2);
        assert_eq!(back.datas[0].data, vec![1, 2]);
        assert!(ReplayBody::read(&bytes[..100], tag).is_err());
    }
    // A record cut short at the end is dropped.
    let mut bytes = Vec::new();
    sample_body(false).write(&mut bytes, false);
    bytes.push(5);
    bytes.push(1);
    assert_eq!(ReplayBody::read(&bytes, false).unwrap().datas.len(), 2);
}

#[test]
fn replay_file_plain_and_compressed() {
    let body = sample_body(false);
    let mut body_bytes = Vec::new();
    body.write(&mut body_bytes, false);
    let plain = Replay { header: header(0, body_bytes.len() as u32), body: body.clone() };
    let bytes = plain.to_bytes().unwrap();
    assert_eq!(bytes.len(), 32 + body_bytes.len());
    assert_eq!(&bytes[32..], &body_bytes[..]);
    let back = Replay::read(&bytes).unwrap();
    assert_eq!(back.body.client_name, body.client_name);
    assert_eq!(back.body.host_deck.main, vec![1, 2, 3]);

    let packed = Replay { header: header(1, body_bytes.len() as u32), body: body.clone() };
    let bytes = packed.to_bytes().unwrap();
    assert_ne!(&bytes[32..], &body_bytes[..]);
    let back = Replay::read(&bytes).unwrap();
    assert_eq!(back.body.host_name, body.host_name);
    assert_eq!(back.body.datas.len(), 2);
    assert_eq!(back.body.client_deck.main, vec![7, 6]);

    let mut broken = bytes.clone();
    broken.truncate(40);
    assert!(Replay::read(&broken).is_err());
    assert_eq!(Replay::read(&bytes[..20]).unwrap_err(), ReplayError::Read(ygopro::bytes::ReadError::UnexpectedEnd));
}

#[test]
fn replay_settings() {
    let mut replay = Replay { header: header(0, 0), body: sample_body(false) };
    assert_eq!(replay.duel_rule(), ygopro::constants::MasterRule::MasterRule2020);
    assert_eq!(replay.mode(), Mode::Single);
    assert!(replay.no_shuffle_deck());
    assert!(!replay.is_tag());
    let info = replay.host_info();
    assert_eq!((info.lflist, info.start_lp, info.start_hand, info.draw_count, info.time_limit), (999, 8000, 5, 1, 999));
    assert!(info.no_check_deck && info.no_shuffle_deck);
    replay.body.duel_options = 0x28;
    assert_eq!(replay.duel_rule(), ygopro::constants::MasterRule::MasterRule1);
    assert_eq!(replay.mode(), Mode::Tag);
    replay.body.duel_options = 0;
    replay.body.duel_rule = 0x0103;
    assert_eq!(replay.duel_rule(), ygopro::constants::MasterRule::MasterRule3);
    replay.body.duel_rule = 9;
    assert_eq!(replay.duel_rule(), ygopro::constants::MasterRule::MasterRule1);
}

#[test]
fn replay_duel_setup() {
    let deck = build_deck(&ReplayDeck { main: vec![1, 2, 3], extra: vec![10, 20] });
    assert_eq!(deck.main, vec![3, 2, 1, 20, 10]);
    assert!(deck.side.is_empty() && deck.extra.is_empty());
    match seed_generator(Some([1, 2, 3, 4, 5, 6, 7, 8]), 0) {
        DuelSeed::Complicated(s) => assert_eq!(s, [1, 2, 3, 4, 5, 6, 7, 8]),
        _ => panic!("seeds not kept"),
    }
    assert!(matches!(ygopro::single_duel::default_seed_generator(1), DuelSeed::Random));
    let configuration = Configuration { mode: 2, save_path: String::new(), file_template: String::new(), format: Format::Ygopro };
    let mut target = SendTarget::All;
    on_generate_replay(&configuration, &mut target);
    assert_eq!(target, SendTarget::AllPlayer);
    let configuration = Configuration { mode: 1, ..configuration };
    let mut target = SendTarget::All;
    on_generate_replay(&configuration, &mut target);
    assert_eq!(target, SendTarget::All);
}

// ---------------------------------------------------------------------------
// Card data
// ---------------------------------------------------------------------------

fn card(code: u32, alias: u32, card_type: u32) -> Card {
    Card { code, alias, rule_code: 0, ot: 3, card_type, setcode: [0; 16] }
}

#[test]
fn card_data_is_normalized_and_inherits_rule_codes() {
    let mut data = DataManager::new();
    let cards = vec![
        card(100, 0, 1),
        card(101, 100, 1),
        card(5000, 100, 1),
        card(5001, 5000, 1),
        card(5405695, 7, 1),
        card(300, 500, 0x4000),
        card(8512558, 0, 1),
    ];
    data.load_cards(&cards);
    let get = |code: u32| data.get_card(code).unwrap();
    assert_eq!((get(100).alias, get(100).rule_code), (0, 0));
    assert_eq!((get(101).alias, get(101).rule_code), (100, 0));
    assert_eq!((get(5000).alias, get(5000).rule_code), (0, 100));
    assert_eq!((get(5001).alias, get(5001).rule_code), (5000, 100));
    assert_eq!((get(5405695).alias, get(5405695).rule_code), (0, 7));
    assert_eq!((get(300).alias, get(300).rule_code), (500, 0));
    assert_eq!(&get(8512558).setcode[..6], &[0x8f, 0x54, 0x59, 0x82, 0x13a, 0]);
    assert_eq!(get(100).setcode, [0; 16]);
    assert!(data.get_card(55088578).is_none());
    assert_eq!(data.cards.codes.len(), 7);
    assert_eq!(get(5001).duel_code(), 100);
    assert_eq!(get(101).original_code(), 100);
}

#[test]
fn card_database_keeps_codes_once() {
    let mut db = CardDatabase::new();
    db.insert(card(1, 0, 1));
    db.insert(card(2, 0, 2));
    db.insert(Card { ot: 1, ..card(1, 0, 1) });
    assert_eq!(db.codes, vec![1, 2]);
    assert_eq!(db.get_card(1).unwrap().ot, 1);
    assert_eq!(db.type_of(2), 2);
    assert_eq!(db.type_of(3), 0);
}

// ---------------------------------------------------------------------------
// Deck checks against the card database
// ---------------------------------------------------------------------------

fn sample_db() -> CardDatabase {
    let mut db = CardDatabase::new();
    db.insert(card(100, 0, 1));
    db.insert(card(101, 100, 1));
    db.insert(card(200, 0, 0x41));
    db.insert(card(300, 0, 0x4001));
    db.insert(Card { ot: 1, ..card(400, 0, 1) });
    db
}

#[test]
fn deck_sorts_out_extra_and_unknown_cards() {
    let db = sample_db();
    let mut deck = Deck { main: vec![100, 200, 999, 300, 100], side: vec![998, 100], extra: vec![] };
    let error = deck.load(&db);
    assert_eq!(error, Some(DeckError { code: 300, error_type: DeckErrorType::UnknownCard }));
    assert_eq!(deck.main, vec![100, 100]);
    assert_eq!(deck.extra, vec![200]);
    assert_eq!(deck.side, vec![100]);
}

#[test]
fn deck_checks_rule_illegal_cards_and_limits() {
    let db = sample_db();
    assert_eq!(check_rule(&[100, 400], Rule::TCG, &db), Err(DeckError { code: 400, error_type: DeckErrorType::OcgOnly }));
    assert_eq!(check_rule(&[100, 400], Rule::OCG, &db), Ok(()));
    assert_eq!(check_rule(&[999], Rule::OCG, &db), Err(DeckError { code: 999, error_type: DeckErrorType::NotAvailable }));
    assert_eq!(check_illegal_cards(&vec![100, 200], &vec![], &vec![], &db), Err(DeckError { code: 0, error_type: DeckErrorType::MainCount }));
    assert_eq!(check_illegal_cards(&vec![100], &vec![300], &vec![], &db), Err(DeckError { code: 0, error_type: DeckErrorType::SideCount }));
    assert_eq!(check_illegal_cards(&vec![100], &vec![], &vec![100], &db), Err(DeckError { code: 0, error_type: DeckErrorType::ExtraCount }));
    assert_eq!(check_illegal_cards(&vec![100], &vec![100], &vec![200], &db), Ok(()));
    let none = LFList::new("none".to_string());
    // An alternative artwork counts as the card it copies.
    assert_eq!(check_deck_lflists(&[100, 101, 100, 101], &none, &db), Err(DeckError { code: 100, error_type: DeckErrorType::CardCount }));
    assert_eq!(check_deck_lflists(&[100, 101, 100], &none, &db), Ok(()));
    let limited = LFList::from("limited".to_string(), vec![(100, 1)], 0, vec![]);
    assert_eq!(check_deck_lflists(&[100, 101], &limited, &db), Err(DeckError { code: 100, error_type: DeckErrorType::Lflist }));
    let genesys = LFList::from("genesys".to_string(), vec![], 10, vec![(100, 4), (400, 3)]);
    assert_eq!(check_deck_lflists(&[100, 400], &genesys, &db), Ok(()));
    assert_eq!(check_deck_lflists(&[100, 100, 400], &genesys, &db), Err(DeckError { code: 400, error_type: DeckErrorType::Lflist }));
}

#[test]
fn deck_wire_form() {
    let deck = Deck { main: vec![1, 2], side: vec![3], extra: vec![] };
    let mut bytes = Vec::new();
    deck.write(&mut bytes);
    assert_eq!(bytes, vec![2, 0, 0, 0, 1, 0, 0, 0, 1, 0, 0, 0, 2, 0, 0, 0, 3, 0, 0, 0]);
    let (back, used) = Deck::read(&bytes).unwrap();
    assert_eq!((back.main, back.side, back.extra, used), (vec![1, 2], vec![3], vec![], 20));
    let with_extra = Deck { main: vec![1], side: vec![], extra: vec![9] };
    let mut bytes = Vec::new();
    with_extra.write(&mut bytes);
    assert_eq!(&bytes[..8], &[2, 0, 0, 0, 0, 0, 0, 0]);
    let update = ctos::UpdateDeck::read(&bytes).unwrap();
    assert_eq!(update.deck.main, vec![1, 9]);
    assert!(Deck::read(&bytes[..10]).is_err());
    let info = ctos::PlayerInfo { name: cast_to_fix_length_array::<20>("Yugi") };
    let mut bytes = Vec::new();
    info.write(&mut bytes);
    assert_eq!(bytes.len(), 40);
    assert_eq!(ctos::PlayerInfo::read(&bytes).unwrap().name, info.name);
}

// ---------------------------------------------------------------------------
// Expansion archives, replayed duels, the field
// ---------------------------------------------------------------------------

#[test]
fn expansion_archive_names() {
    assert!(is_archive_extension(Some("zip")));
    assert!(is_archive_extension(Some("ypk")));
    assert!(!is_archive_extension(Some("ZIP")));
    assert!(!is_archive_extension(None));
    assert!(is_expansion_archive("expansions/pack.ypk"));
    assert!(is_expansion_archive("a/b.c.zip"));
    assert!(!is_expansion_archive("expansions/cards.cdb"));
    assert!(!is_expansion_archive("expansions/.zip"));
    let names = vec!["cards.cdb".to_string(), "script/c1.lua".to_string(), "x/extra.cdb".to_string(), "cdb".to_string()];
    assert_eq!(cdb_names(&names), vec!["cards.cdb".to_string(), "x/extra.cdb".to_string()]);
}

#[test]
fn replayed_duel_start_script() {
    let replay = Replay { header: header(0, 0), body: sample_body(false) };
    let info = start_host_info(&replay);
    assert_eq!(info.time_limit, 0);
    assert_eq!(info.lflist, 999);
    assert_eq!(replay_seed(&replay), [0; 8]);
    assert_eq!(display_name(&name("host")), "host");
    let mut broken = name("x");
    broken[0] = 0xD800;
    assert_eq!(display_name(&broken), "[ERROR]");
    let script = start_game_script(&replay);
    assert_eq!(script.len(), 19);
    match &script[0] {
        Step::Send(PlayerIndex::Player1, Command::PlayerInfo(n)) => assert_eq!(n, "host"),
        other => panic!("unexpected first step {:?}", other),
    }
    match &script[8] {
        Step::Send(PlayerIndex::Player1, Command::UpdateDeck(d)) => assert_eq!(d.main, vec![3, 2, 1, 9]),
        other => panic!("unexpected deck step {:?}", other),
    }
    assert!(matches!(script[3], Step::Pause));
    assert!(matches!(script[17], Step::WaitFor(PlayerIndex::Player1, stoc::MessageType::SelectTp)));
    match &script[18] {
        Step::Send(PlayerIndex::Player1, Command::TpResult(t)) => assert_eq!(t.result, CorePlayer::FirstAttackPlayer),
        other => panic!("unexpected last step {:?}", other),
    }
}

#[test]
fn field_for_a_rejoining_duelist() {
    let mut room = Room::new(false, HostInfo::default());
    room.on_join_game(ygopro::single_duel::PRO_VERSION, true).unwrap();
    room.on_join_game(ygopro::single_duel::PRO_VERSION, true).unwrap();
    room.first_attack_player = Some(PlayerIndex::Player2);
    let field = room.on_request_field(PlayerIndex::Player2, [40, 15, 39, 14], ygopro::constants::Phase::Main1, true);
    assert_eq!(field.len(), 4 + 12 + 1 + 3);
    assert_eq!(field[0], ygopro::single_duel::FieldMessage::DuelStart);
    match field[1] {
        ygopro::single_duel::FieldMessage::Start(start) => {
            assert_eq!(start.player_type, 1);
            assert_eq!((start.player1_lp, start.player1_deck_count, start.player2_extra_count), (8000, 40, 14));
        },
        other => panic!("unexpected {:?}", other),
    }
    assert_eq!(field[4], ygopro::single_duel::FieldMessage::Refresh(CorePlayer::FirstAttackPlayer, 4));
    assert_eq!(field[15], ygopro::single_duel::FieldMessage::Refresh(CorePlayer::SecondAttackPlayer, 32));
    assert_eq!(field[16], ygopro::single_duel::FieldMessage::ReverseDeck);
    assert_eq!(field[17], ygopro::single_duel::FieldMessage::TimeLimit(CorePlayer::SecondAttackPlayer, 0));
    assert_eq!(field[19], ygopro::single_duel::FieldMessage::FieldFinish);
}

// ---------------------------------------------------------------------------
// Handler registry
// ---------------------------------------------------------------------------

fn entry(id: usize, priority: u8) -> HandlerEntry {
    HandlerEntry { id, priority }
}

#[test]
fn registry_orders_handlers_by_priority() {
    let mut processor = Processor::new();
    processor.register(18, entry(1, 5));
    processor.register(19, entry(2, 1));
    processor.register(18, entry(3, 0));
    processor.register_global(entry(4, 3));
    assert_eq!(processor.handler_count(), 4);
    assert_eq!(processor.chain(18), &vec![entry(1, 5), entry(3, 0)]);
    assert_eq!(processor.chain(7), &vec![entry(4, 3)]);
    processor.resolve();
    assert_eq!(processor.chain(18), &vec![entry(3, 0), entry(4, 3), entry(1, 5)]);
    assert_eq!(processor.chain(19), &vec![entry(2, 1), entry(4, 3)]);
    assert_eq!(processor.chain(7), &vec![entry(4, 3)]);
    assert_eq!(processor.handler_count(), 6);
}

#[test]
fn registry_keeps_named_groups() {
    let built = vec![
        (18u8, entry(1, 2), "room".to_string()),
        (0u8, entry(2, 1), "log".to_string()),
        (18u8, entry(3, 0), "plugin".to_string()),
        (0u8, entry(4, 0), "room".to_string()),
    ];
    let all = Processor::new_with_groups(&built, &vec![], 0);
    assert_eq!(all.chain(18), &vec![entry(3, 0), entry(4, 0), entry(2, 1), entry(1, 2)]);
    let some = Processor::new_with_groups(&built, &vec!["room".to_string()], 0);
    assert_eq!(some.chain(18), &vec![entry(4, 0), entry(1, 2)]);
    assert_eq!(some.global_handlers, vec![entry(4, 0)]);
}

#[test]
fn dispatcher_recipients() {
    let observers = vec![true, false, true];
    assert_eq!(dispatch_seats(2, &observers, SendTarget::All), vec![Seat::Player(0), Seat::Player(1), Seat::Observer(0), Seat::Observer(2)]);
    assert_eq!(dispatch_seats(2, &observers, SendTarget::Except(Seat::Observer(2))), vec![Seat::Player(0), Seat::Player(1), Seat::Observer(0)]);
    assert_eq!(dispatch_seats(2, &observers, SendTarget::Except(Seat::Player(0))), vec![Seat::Player(1), Seat::Observer(0), Seat::Observer(2)]);
    assert_eq!(dispatch_seats(2, &observers, SendTarget::Single(Seat::Player(3))), Vec::<Seat>::new());
    assert_eq!(dispatch_seats(2, &observers, SendTarget::Single(Seat::Observer(1))), Vec::<Seat>::new());
    assert_eq!(dispatch_seats(2, &observers, SendTarget::AllObserver), vec![Seat::Observer(0), Seat::Observer(2)]);
    assert_eq!(dispatch_seats(2, &observers, SendTarget::Nobody), Vec::<Seat>::new());
}

#[test]
fn refreshes_after_game_messages() {
    assert_eq!(ygopro::single_duel::refresh_after_message(gm::MessageType::ShuffleHand, CorePlayer::SecondAttackPlayer, 0), Some((CorePlayer::SecondAttackPlayer, 2)));
    assert_eq!(ygopro::single_duel::refresh_after_message(gm::MessageType::ShuffleSetCard, CorePlayer::FirstAttackPlayer, 8), Some((CorePlayer::All, 8)));
    assert_eq!(ygopro::single_duel::refresh_after_message(gm::MessageType::ChainEnd, CorePlayer::FirstAttackPlayer, 0), Some((CorePlayer::All, 14)));
    assert_eq!(ygopro::single_duel::refresh_after_message(gm::MessageType::DamageStepEnd, CorePlayer::FirstAttackPlayer, 0), Some((CorePlayer::All, 4)));
    assert_eq!(ygopro::single_duel::refresh_after_message(gm::MessageType::Damage, CorePlayer::FirstAttackPlayer, 0), None);
}

#[test]
fn replay_file_names_and_formats() {
    let chars = |t: &str| t.chars().collect::<Vec<char>>();
    let names = vec!["A".to_string(), "B".to_string()];
    assert_eq!(players_text(&names, false), chars("A VS B"));
    let four = vec!["A".to_string(), "B".to_string(), "C".to_string(), "D".to_string()];
    assert_eq!(players_text(&four, true), chars("A & B VS C & D"));
    assert_eq!(players_text(&four, false), chars("A VS B VS C VS D"));
    assert_eq!(players_text(&vec![], false), chars(""));
    assert_eq!(replace_text(&chars("aXXbXXXc"), &chars("XX"), &chars("-")), chars("a-b-Xc"));
    assert_eq!(replace_text(&chars("abc"), &chars(""), &chars("-")), chars("abc"));
    assert_eq!(file_name("2024-01-02 {players}/{x}", &chars("A VS B")), "2024-01-02 A VS B_{x}");
    let replay = Replay { header: header(0, 0), body: sample_body(false) };
    let (ext, bytes) = serialize(Format::Ygopro, &replay).unwrap();
    assert_eq!(ext, "yrp");
    assert_eq!(bytes, replay.to_bytes().unwrap());
    assert!(serialize(Format::Srvpro, &replay).is_none());
    assert!(serialize(Format::Raw, &replay).is_none());
}

#[test]
fn archives_and_seat_lookup() {
    assert_eq!(read_from_archives(vec![None, Some(vec![1, 2]), Some(vec![3])]), Some(vec![1, 2]));
    assert_eq!(read_from_archives(vec![None, None]), None);
    assert_eq!(read_from_archives(vec![]), None);
    let mut room = Room::new(false, HostInfo::default());
    assert_eq!(room.transform(CorePlayer::FirstAttackPlayer), SendTarget::Single(Seat::Player(0)));
    room.first_attack_player = Some(PlayerIndex::Player2);
    assert_eq!(room.transform(CorePlayer::FirstAttackPlayer), SendTarget::Single(Seat::Player(1)));
    assert_eq!(room.transform(CorePlayer::All), SendTarget::Single(Seat::Unknown));
}
