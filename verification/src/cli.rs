//! The command line of a local duel server.
use base64::Engine;
use vstd::prelude::*;

use crate::constants::{MasterRule, Mode, Rule};
use crate::lflist::LFList;
use crate::managers::DeckManager;
use crate::message::host_info::HostInfo;
use crate::random::{seed_from_bytes, seeds_of_bytes, SEED_COUNT};
use crate::text::{
    chars_of, decimal, is_digit, is_whitespace, is_ws, lemma_decimal, parse_decimal,
    parse_unsigned, string_from_chars,
};

verus! {

/// Why a command line was refused.
#[derive(Debug)]
pub enum CliError {
    /// Too few or too many arguments.
    BadParamCount,
    /// The port is no number.
    InvalidPort(String),
    /// A seed does not decode.
    InvalidSeed(String),
}

/// A refusal, its argument taken as characters.
pub enum CliErrorView {
    BadParamCount,
    InvalidPort(Seq<char>),
    InvalidSeed(Seq<char>),
}

impl View for CliError {
    type V = CliErrorView;

    open spec fn view(&self) -> CliErrorView {
        match self {
            CliError::BadParamCount => CliErrorView::BadParamCount,
            CliError::InvalidPort(s) => CliErrorView::InvalidPort(s@),
            CliError::InvalidSeed(s) => CliErrorView::InvalidSeed(s@),
        }
    }
}

/// The layout of the caller's arguments after `replay_mode`.
#[derive(Clone, Copy, Debug, PartialEq, Eq, Structural)]
pub enum ArgsFormat {
    /// Seeds follow `replay_mode`.
    Mycard,
    /// A base path follows `replay_mode`, then the seeds.
    Mobile,
    /// Decided by the argument after `replay_mode`: an existing path means `Mobile`,
    /// base64 means `Mycard`.
    Unknown,
}

impl Default for ArgsFormat {
    fn default() -> (r: ArgsFormat)
        ensures
            r == ArgsFormat::Mycard,
    {
        ArgsFormat::Mycard
    }
}

/// What a local duel server starts with.
pub struct ServerArguments {
    pub port: u16,
    pub host_info: HostInfo,
    /// The replay mode bits.
    pub replay_mode: u32,
    /// The seeds of each duel, in order.
    pub seeds: Vec<[u32; SEED_COUNT]>,
    pub base_path: String,
}

/// Server arguments, seeds and path taken as sequences.
pub struct ServerArgumentsView {
    pub port: u16,
    pub host_info: HostInfo,
    pub replay_mode: u32,
    pub seeds: Seq<Seq<u32>>,
    pub base_path: Seq<char>,
}

impl View for ServerArguments {
    type V = ServerArgumentsView;

    open spec fn view(&self) -> ServerArgumentsView {
        ServerArgumentsView {
            port: self.port,
            host_info: self.host_info,
            replay_mode: self.replay_mode,
            seeds: self.seeds@.map_values(|a: [u32; SEED_COUNT]| a@),
            base_path: self.base_path@,
        }
    }
}

/// The bytes that base64's standard engine decodes `s` to, or `None` where `s` is no
/// standard base64.
pub uninterp spec fn base64_standard_decode(s: Seq<char>) -> Option<Seq<u8>>;

/// `base64::engine::general_purpose::STANDARD.decode`: the decoded bytes, or `None`
/// when decoding fails. Its result is named, not stated.
#[verifier::external_body]
fn decode_base64(s: &str) -> (r: Option<Vec<u8>>)
    ensures
        match r {
            Some(v) => base64_standard_decode(s@) == Some(v@),
            None => base64_standard_decode(s@) is None,
        },
{
    match base64::engine::general_purpose::STANDARD.decode(s) {
        Ok(v) => Some(v),
        Err(_) => None,
    }
}

/// The number an argument spells, or `default`.
pub open spec fn number_or(s: Seq<char>, max: nat, default: nat) -> nat {
    match parse_unsigned(s, max) {
        Some(v) => v,
        None => default,
    }
}

/// The one-character argument `T`.
pub open spec fn t_arg() -> Seq<char> {
    seq!['T']
}

/// The one-character argument `F`.
pub open spec fn f_arg() -> Seq<char> {
    seq!['F']
}

/// The mode an argument names: 0 single, 1 match, 2 tag; single for anything else.
pub open spec fn mode_of_arg(s: Seq<char>) -> Mode {
    match Mode::of_code(number_or(s, 255, 0) as u8) {
        Some(m) => m,
        None => Mode::Single,
    }
}

/// The master rule an argument names: `T` the new master rule, `F` the 2020 one, a
/// number from 1 to 5 that master rule; the 2020 one for anything else.
pub open spec fn duel_rule_of_arg(s: Seq<char>) -> MasterRule {
    if s == t_arg() {
        MasterRule::MasterRuleNew
    } else if s == f_arg() {
        MasterRule::MasterRule2020
    } else {
        match parse_unsigned(s, 255) {
            Some(v) => if v != 0 {
                match MasterRule::of_code(v as u8) {
                    Some(r) => r,
                    None => MasterRule::MasterRule2020,
                }
            } else {
                MasterRule::MasterRule2020
            },
            None => MasterRule::MasterRule2020,
        }
    }
}

/// The master rule argument written as a number from 1 to 5 names the master rule of
/// that number; written as 0 or as a larger number, it names the 2020 rule; `T` names
/// the new master rule and `F` the 2020 one.
pub proof fn law_duel_rule_number(n: nat)
    ensures
        1 <= n <= 5 ==> duel_rule_of_arg(decimal(n)).code() == n,
        n == 0 || n > 5 ==> duel_rule_of_arg(decimal(n)) == MasterRule::MasterRule2020,
        duel_rule_of_arg(seq!['T']) == MasterRule::MasterRuleNew,
        duel_rule_of_arg(seq!['F']) == MasterRule::MasterRule2020,
{
    lemma_decimal(n);
    let s = decimal(n);
    assert(is_digit(s[0]));
    assert(s != t_arg()) by {
        if s == t_arg() {
            assert(s[0] == 'T');
        }
    }
    assert(s != f_arg()) by {
        if s == f_arg() {
            assert(s[0] == 'F');
        }
    }
    if n > 255 {
        assert(s[0] != '+');
        assert(parse_unsigned(s, 255) is None);
    }
}

/// The hash of the list at `index`, or 0 when there is none.
pub open spec fn lflist_hash_at(lists: Seq<LFList>, index: nat) -> u32 {
    if index < lists.len() {
        lists[index as int].hash
    } else {
        0
    }
}

/// The room settings of a full command line: lflist index, rule, mode, master rule,
/// `T` for unchecked decks, `T` for unshuffled decks, life points, hand, draw count
/// and time limit, each with its default where it does not parse.
pub open spec fn host_info_of_args(args: Seq<Seq<char>>, lists: Seq<LFList>) -> HostInfo {
    HostInfo {
        lflist: lflist_hash_at(lists, number_or(args[1], 0xFFFF_FFFF, 0)),
        rule: match Rule::of_code(number_or(args[2], 255, 0) as u8) {
            Some(r) => r,
            None => Rule::All,
        },
        mode: mode_of_arg(args[3]),
        duel_rule: duel_rule_of_arg(args[4]),
        no_check_deck: args[5] == t_arg(),
        no_shuffle_deck: args[6] == t_arg(),
        start_lp: number_or(args[7], 0xFFFF_FFFF, 8000) as u32,
        start_hand: number_or(args[8], 255, 5) as u8,
        draw_count: number_or(args[9], 255, 1) as u8,
        time_limit: number_or(args[10], 0xFFFF, 180) as u16,
    }
}

/// The seeds the arguments decode to, or the first argument that does not decode.
pub open spec fn decode_seeds(args: Seq<Seq<char>>) -> Result<Seq<Seq<u32>>, CliErrorView>
    decreases args.len(),
{
    if args.len() == 0 {
        Ok(Seq::empty())
    } else {
        match decode_seeds(args.drop_last()) {
            Err(e) => Err(e),
            Ok(s) => match base64_standard_decode(args.last()) {
                None => Err(CliErrorView::InvalidSeed(args.last())),
                Some(b) => Ok(s.push(seeds_of_bytes(b))),
            },
        }
    }
}

/// Once a prefix of the seed arguments fails to decode, all of them fail the same way.
proof fn lemma_decode_seeds_error(args: Seq<Seq<char>>, k: int)
    requires
        0 <= k <= args.len(),
        decode_seeds(args.take(k)) is Err,
    ensures
        decode_seeds(args) == decode_seeds(args.take(k)),
    decreases args.len(),
{
    if k < args.len() {
        assert(args.drop_last().take(k) =~= args.take(k));
        lemma_decode_seeds_error(args.drop_last(), k);
    } else {
        assert(args.take(k) =~= args);
    }
}

/// The format an argument after `replay_mode` shows: `Mobile` for an existing path,
/// `Mycard` for base64, and a refusal otherwise.
pub open spec fn inferred_format(tail: Seq<char>, tail_is_path: bool) -> Result<ArgsFormat, CliErrorView> {
    if tail_is_path {
        Ok(ArgsFormat::Mobile)
    } else if base64_standard_decode(tail) is Some {
        Ok(ArgsFormat::Mycard)
    } else {
        Err(CliErrorView::BadParamCount)
    }
}

/// The path `./`.
pub open spec fn current_dir() -> Seq<char> {
    seq!['.', '/']
}

/// Server arguments with the default room settings.
pub open spec fn default_arguments(port: u16) -> ServerArgumentsView {
    ServerArgumentsView {
        port,
        host_info: HostInfo {
            lflist: 0,
            rule: Rule::OCG,
            mode: Mode::Match,
            duel_rule: MasterRule::MasterRule2020,
            no_check_deck: false,
            no_shuffle_deck: false,
            start_lp: 8000,
            start_hand: 5,
            draw_count: 1,
            time_limit: 180,
        },
        replay_mode: 0,
        seeds: Seq::empty(),
        base_path: current_dir(),
    }
}

/// What a command line means.
///
/// No argument: port 0 and the defaults. One: the port and the defaults. From two to
/// eleven: refused. Otherwise `port lflist rule mode duel_rule no_check no_shuffle lp
/// hand draw time replay_mode`, then, by format, either the seeds, or a base path, two
/// reserved arguments and the seeds (each seed in base64). An `Unknown` format is
/// decided first, from the argument after `replay_mode` (`tail_is_path` tells whether
/// it names an existing path); with no such argument it is `Mycard`.
pub open spec fn cli_outcome(
    args: Seq<Seq<char>>,
    format: ArgsFormat,
    lists: Seq<LFList>,
    tail_is_path: bool,
) -> Result<ServerArgumentsView, CliErrorView> {
    if args.len() == 0 {
        Ok(default_arguments(0))
    } else if args.len() == 1 {
        match parse_unsigned(args[0], 0xFFFF) {
            Some(p) => Ok(default_arguments(p as u16)),
            None => Err(CliErrorView::InvalidPort(args[0])),
        }
    } else if args.len() < 12 {
        Err(CliErrorView::BadParamCount)
    } else {
        let fmt = match format {
            ArgsFormat::Unknown => if args.len() > 12 {
                inferred_format(args[12], tail_is_path)
            } else {
                Ok(ArgsFormat::Mycard)
            },
            f => Ok(f),
        };
        match fmt {
            Err(e) => Err(e),
            Ok(f) => match parse_unsigned(args[0], 0xFFFF) {
                None => Err(CliErrorView::InvalidPort(args[0])),
                Some(p) => {
                    let mobile = f == ArgsFormat::Mobile;
                    let seeds = if mobile {
                        decode_seeds(if args.len() > 15 {
                            args.skip(15)
                        } else {
                            Seq::empty()
                        })
                    } else {
                        decode_seeds(args.skip(12))
                    };
                    match seeds {
                        Err(e) => Err(e),
                        Ok(s) => Ok(
                            ServerArgumentsView {
                                port: p as u16,
                                host_info: host_info_of_args(args, lists),
                                replay_mode: number_or(args[11], 0xFFFF_FFFF, 0) as u32,
                                seeds: s,
                                base_path: if mobile && args.len() > 12 {
                                    args[12]
                                } else {
                                    current_dir()
                                },
                            },
                        ),
                    }
                },
            },
        }
    }
}

/// A command line's outcome, seen through views.
pub open spec fn cli_view(r: Result<ServerArguments, CliError>) -> Result<ServerArgumentsView, CliErrorView> {
    match r {
        Ok(a) => Ok(a@),
        Err(e) => Err(e@),
    }
}

/// The number an argument spells, if it is at most `max`.
fn parse_arg(s: &String, max: u64) -> (r: Option<u64>)
    ensures
        r matches Some(v) ==> parse_unsigned(s@, max as nat) == Some(v as nat),
        r is None ==> parse_unsigned(s@, max as nat) is None,
{
    let cs = chars_of(s.as_str());
    assert(cs@.subrange(0, cs@.len() as int) =~= cs@);
    parse_decimal(&cs, 0, cs.len(), max)
}

/// The number an argument spells, or `default`.
fn arg_or(s: &String, max: u64, default: u64) -> (r: u64)
    requires
        default <= max,
    ensures
        r == number_or(s@, max as nat, default as nat),
        r <= max,
{
    match parse_arg(s, max) {
        Some(v) => v,
        None => default,
    }
}

/// Whether an argument is the one character `c`.
fn is_char_arg(s: &String, c: char) -> (r: bool)
    ensures
        r == (s@ == seq![c]),
{
    let cs = chars_of(s.as_str());
    if cs.len() == 1 && cs[0] == c {
        assert(cs@ =~= seq![c]);
        true
    } else {
        proof {
            if s@ == seq![c] {
                assert(cs@[0] == c);
            }
        }
        false
    }
}

/// The mode an argument names.
fn parse_mode(argument: &String) -> (r: Mode)
    ensures
        r == mode_of_arg(argument@),
{
    let v = arg_or(argument, 255, 0) as u8;
    match Mode::from_value(v) {
        Some(m) => m,
        None => Mode::Single,
    }
}

/// The master rule an argument names.
fn parse_duel_rule(argument: &String) -> (r: MasterRule)
    ensures
        r == duel_rule_of_arg(argument@),
{
    if is_char_arg(argument, 'T') {
        MasterRule::MasterRuleNew
    } else if is_char_arg(argument, 'F') {
        MasterRule::MasterRule2020
    } else {
        match parse_arg(argument, 255) {
            Some(v) => if v != 0 {
                match MasterRule::from_value(v as u8) {
                    Some(r) => r,
                    None => MasterRule::MasterRule2020,
                }
            } else {
                MasterRule::MasterRule2020
            },
            None => MasterRule::MasterRule2020,
        }
    }
}

/// Decode one seed argument.
fn decode_seed(arg: &String) -> (r: Result<[u32; SEED_COUNT], CliError>)
    ensures
        match r {
            Ok(a) => base64_standard_decode(arg@) matches Some(b) && a@ == seeds_of_bytes(b),
            Err(e) => base64_standard_decode(arg@) is None && e@ == CliErrorView::InvalidSeed(arg@),
        },
{
    match decode_base64(arg.as_str()) {
        Some(bytes) => Ok(seed_from_bytes(bytes.as_slice())),
        None => Err(CliError::InvalidSeed(arg.clone())),
    }
}

/// Decode the seed arguments from `start` on.
fn decode_seed_args(args: &Vec<String>, start: usize) -> (r: Result<Vec<[u32; SEED_COUNT]>, CliError>)
    requires
        start <= args@.len(),
    ensures
        match r {
            Ok(v) => decode_seeds(args@.map_values(|a: String| a@).skip(start as int)) == Ok::<
                Seq<Seq<u32>>,
                CliErrorView,
            >(v@.map_values(|a: [u32; SEED_COUNT]| a@)),
            Err(e) => decode_seeds(args@.map_values(|a: String| a@).skip(start as int)) == Err::<
                Seq<Seq<u32>>,
                CliErrorView,
            >(e@),
        },
{
    let ghost all = args@.map_values(|a: String| a@).skip(start as int);
    let mut seeds: Vec<[u32; SEED_COUNT]> = Vec::new();
    let mut i: usize = start;
    assert(all.take(0) =~= Seq::<Seq<char>>::empty());
    assert(seeds@.map_values(|x: [u32; SEED_COUNT]| x@) =~= Seq::<Seq<u32>>::empty());
    while i < args.len()
        invariant
            start <= i <= args@.len(),
            all == args@.map_values(|a: String| a@).skip(start as int),
            decode_seeds(all.take(i - start)) == Ok::<Seq<Seq<u32>>, CliErrorView>(
                seeds@.map_values(|a: [u32; SEED_COUNT]| a@),
            ),
        decreases args.len() - i,
    {
        assert(all.take(i + 1 - start).drop_last() =~= all.take(i - start));
        assert(all.take(i + 1 - start).last() == args@[i as int]@);
        match decode_seed(&args[i]) {
            Ok(a) => {
                let ghost prev = seeds@.map_values(|x: [u32; SEED_COUNT]| x@);
                seeds.push(a);
                assert(seeds@.map_values(|x: [u32; SEED_COUNT]| x@) =~= prev.push(a@));
            },
            Err(e) => {
                proof {
                    lemma_decode_seeds_error(all, i + 1 - start);
                }
                return Err(e);
            },
        }
        i = i + 1;
    }
    assert(all.take(i - start) =~= all);
    Ok(seeds)
}

/// Decide an `Unknown` format from the argument after `replay_mode`.
fn infer_format(tail: &String, tail_is_path: bool) -> (r: Result<ArgsFormat, CliError>)
    ensures
        match r {
            Ok(f) => inferred_format(tail@, tail_is_path) == Ok::<ArgsFormat, CliErrorView>(f),
            Err(e) => inferred_format(tail@, tail_is_path) == Err::<ArgsFormat, CliErrorView>(e@),
        },
{
    if tail_is_path {
        return Ok(ArgsFormat::Mobile);
    }
    match decode_base64(tail.as_str()) {
        Some(_) => Ok(ArgsFormat::Mycard),
        None => Err(CliError::BadParamCount),
    }
}

/// Server arguments with the default room settings.
fn default_server_arguments(port: u16) -> (r: ServerArguments)
    ensures
        r@ == default_arguments(port),
{
    let base_path = String::from_str("./");
    proof {
        reveal_strlit("./");
    }
    assert(base_path@ =~= current_dir());
    let r = ServerArguments {
        port,
        host_info: HostInfo::default(),
        replay_mode: 0,
        seeds: Vec::new(),
        base_path,
    };
    assert(r@.seeds =~= Seq::<Seq<u32>>::empty());
    r
}

/// Read a command line (the program name left out). The lflist argument is an index
/// into the lists of `deck_manager`; `tail_is_path` tells whether the argument after
/// `replay_mode` names an existing path, which decides an `Unknown` format.
pub fn parse_cli_args(
    args: &Vec<String>,
    format: ArgsFormat,
    deck_manager: &DeckManager,
    tail_is_path: bool,
) -> (r: Result<ServerArguments, CliError>)
    ensures
        cli_view(r) == cli_outcome(
            args@.map_values(|a: String| a@),
            format,
            deck_manager.lflists@,
            tail_is_path,
        ),
{
    let ghost a = args@.map_values(|s: String| s@);
    if args.len() == 0 {
        return Ok(default_server_arguments(0));
    }
    if args.len() == 1 {
        assert(a[0] == args@[0]@);
        return match parse_arg(&args[0], 0xFFFF) {
            Some(p) => Ok(default_server_arguments(p as u16)),
            None => Err(CliError::InvalidPort(args[0].clone())),
        };
    }
    if args.len() < 12 {
        return Err(CliError::BadParamCount);
    }
    assert forall|i: int| 0 <= i < args@.len() implies #[trigger] a[i] == args@[i]@ by {}
    let format = match format {
        ArgsFormat::Unknown => if args.len() > 12 {
            match infer_format(&args[12], tail_is_path) {
                Ok(f) => f,
                Err(e) => return Err(e),
            }
        } else {
            ArgsFormat::Mycard
        },
        f => f,
    };
    let port = match parse_arg(&args[0], 0xFFFF) {
        Some(p) => p as u16,
        None => return Err(CliError::InvalidPort(args[0].clone())),
    };
    let lflist_index = arg_or(&args[1], 0xFFFF_FFFF, 0);
    let lflist = match deck_manager.get_lflist(lflist_index as u32) {
        Some(l) => l.hash,
        None => 0,
    };
    let rule = match Rule::try_from_u8(arg_or(&args[2], 255, 0) as u8) {
        Some(r) => r,
        None => Rule::All,
    };
    let host_info = HostInfo {
        lflist,
        rule,
        mode: parse_mode(&args[3]),
        duel_rule: parse_duel_rule(&args[4]),
        no_check_deck: is_char_arg(&args[5], 'T'),
        no_shuffle_deck: is_char_arg(&args[6], 'T'),
        start_lp: arg_or(&args[7], 0xFFFF_FFFF, 8000) as u32,
        start_hand: arg_or(&args[8], 255, 5) as u8,
        draw_count: arg_or(&args[9], 255, 1) as u8,
        time_limit: arg_or(&args[10], 0xFFFF, 180) as u16,
    };
    let replay_mode = arg_or(&args[11], 0xFFFF_FFFF, 0) as u32;
    let mobile = format == ArgsFormat::Mobile;
    let seeds = if mobile {
        if args.len() > 15 {
            decode_seed_args(args, 15)
        } else {
            let v: Vec<[u32; SEED_COUNT]> = Vec::new();
            assert(v@.map_values(|x: [u32; SEED_COUNT]| x@) =~= Seq::<Seq<u32>>::empty());
            Ok(v)
        }
    } else {
        decode_seed_args(args, 12)
    };
    let seeds = match seeds {
        Ok(s) => s,
        Err(e) => return Err(e),
    };
    let base_path = if mobile && args.len() > 12 {
        args[12].clone()
    } else {
        let p = String::from_str("./");
        proof {
            reveal_strlit("./");
        }
        assert(p@ =~= current_dir());
        p
    };
    Ok(ServerArguments { port, host_info, replay_mode, seeds, base_path })
}

/// The state of splitting a command line: the arguments so far, the argument being
/// read, and whether a quote is open.
pub type SplitState = (Seq<Seq<char>>, Seq<char>, bool);

/// How one character changes the state: a double quote opens or closes a quote and is
/// dropped; whitespace outside quotes ends a non-empty argument; any other character
/// is added to the argument.
pub open spec fn split_step(st: SplitState, c: char) -> SplitState {
    if c == '"' {
        (st.0, st.1, !st.2)
    } else if is_ws(c) && !st.2 {
        if st.1.len() > 0 {
            (st.0.push(st.1), Seq::empty(), st.2)
        } else {
            st
        }
    } else {
        (st.0, st.1.push(c), st.2)
    }
}

/// The state after the characters `s`.
pub open spec fn split_fold(s: Seq<char>) -> SplitState
    decreases s.len(),
{
    if s.len() == 0 {
        (Seq::empty(), Seq::empty(), false)
    } else {
        split_step(split_fold(s.drop_last()), s.last())
    }
}

/// The arguments of a command line.
pub open spec fn command_line_args(s: Seq<char>) -> Seq<Seq<char>> {
    let st = split_fold(s);
    if st.1.len() > 0 {
        st.0.push(st.1)
    } else {
        st.0
    }
}

/// Split a command line into arguments, with double quotes grouping words.
pub fn split_command_line(arguments: &str) -> (r: Vec<String>)
    ensures
        r@.map_values(|a: String| a@) == command_line_args(arguments@),
{
    let cs = chars_of(arguments);
    let mut result: Vec<String> = Vec::new();
    let mut current: Vec<char> = Vec::new();
    let mut in_quotes = false;
    let mut i: usize = 0;
    while i < cs.len()
        invariant
            i <= cs.len(),
            cs@ == arguments@,
            result@.map_values(|a: String| a@) == split_fold(cs@.take(i as int)).0,
            current@ == split_fold(cs@.take(i as int)).1,
            in_quotes == split_fold(cs@.take(i as int)).2,
        decreases cs.len() - i,
    {
        assert(cs@.take(i + 1).drop_last() =~= cs@.take(i as int));
        let c = cs[i];
        if c == '"' {
            in_quotes = !in_quotes;
        } else if is_whitespace(c) && !in_quotes {
            if current.len() > 0 {
                let ghost prev = result@.map_values(|a: String| a@);
                let arg = string_from_chars(current.as_slice());
                result.push(arg);
                assert(result@.map_values(|a: String| a@) =~= prev.push(current@));
                current = Vec::new();
            }
        } else {
            current.push(c);
        }
        i = i + 1;
    }
    assert(cs@.take(i as int) =~= cs@);
    if current.len() > 0 {
        let ghost prev = result@.map_values(|a: String| a@);
        let arg = string_from_chars(current.as_slice());
        result.push(arg);
        assert(result@.map_values(|a: String| a@) =~= prev.push(current@));
    }
    result
}

} // verus!
