# ygopro

The logic of a YGOPro duel server as a Verus library: each function carries a contract
that Verus proves, and the laws that tie functions together (what a write reads back
as, what a mask hides, what a registry resolves to) are proof functions.

## Layout

- `src/bytes.rs`, `src/message/`: little-endian integers and the wire messages, each
  with a codec and a round-trip lemma: the client-to-server and server-to-client
  messages of a duel room, and the engine's game messages that carry plain values
  (`game_message.rs`, `value_messages.rs`), card codes (`card_codes.rs`: `Draw`,
  `ShuffleHand`, `ShuffleExtra`) or a card's place (`place_messages.rs`: `Move`,
  `SetCard`, `SpecialSummoning`). Each of these game messages states how it is masked:
  a card code is hidden from whoever may not see it (for a moved card, by where it goes
  and how it lies), and nothing is hidden in the others. The game messages that list
  cards by place for a selection, a chain, an attack or a card update are not covered.
- `src/response.rs`: players' answers to the engine's prompts.
- `src/deck.rs`, `src/deck_text.rs`, `src/lflist.rs`, `src/card.rs`,
  `src/data_manager.rs`: decks (model, checks, text and wire forms), limit lists and
  their hash, the card database and how it is loaded.
- `src/single_duel.rs`: the rules of a single or match duel room, from joining to the
  end of the match, and where the engine's messages go.
- `src/duel.rs`, `src/processor.rs`, `src/extract.rs`: sending messages to seats in the
  form each may see, and the logs the sender keeps of what it sent; the handler
  registry, and handlers' answers.
- `src/replay.rs`, `src/replay_body.rs`, `src/replay_plugin.rs`, `src/start_game.rs`,
  `src/validation.rs`: replay files (header, body, compression), where replays go, and
  validating a replay by playing it back.
- `src/cli.rs`, `src/managers.rs`, `src/strings_conf.rs`, `src/random.rs`,
  `src/string.rs`, `src/text.rs`, `src/ypk.rs`, `src/engine.rs`, `src/constants.rs`:
  the command line, settings, strings, seeds, text helpers, expansion archives and the
  engine's answers.
- `tests/`: tests on concrete values.
- `app/`: the `ygopro` command, which reads its arguments and files and reports the
  settings.
