//! The score, the table of the ten best scores, and the dialogue in which
//! a player enters a name after the game is over.

use vstd::prelude::*;
use vstd::string::*;
use core::time::Duration;
use bevy::time::Timer;
use crate::clock::{rings, ticked, tick, just_finished};
use crate::text::{decimal, is_blank, is_control, blank, char_is_control, pop_char, push_char, push_decimal};
use crate::character::Player;

verus! {

/// Number of entries that the table keeps.
pub const TABLE_SIZE: usize = 10;

/// An entry of the table: a name and the score reached under it.
#[derive(Clone, Debug)]
pub struct HighScoreEntry {
    pub name: String,
    pub score: u64,
}

/// What an entry of the table says.
pub struct EntryView {
    pub name: Seq<char>,
    pub score: nat,
}

impl View for HighScoreEntry {
    type V = EntryView;

    open spec fn view(&self) -> EntryView {
        EntryView { name: self.name@, score: self.score as nat }
    }
}

/// The table of the best scores.
#[derive(Debug)]
pub struct HighScores {
    pub scores: Vec<HighScoreEntry>,
}

impl View for HighScores {
    type V = Seq<EntryView>;

    open spec fn view(&self) -> Seq<EntryView> {
        self.scores@.map_values(|e: HighScoreEntry| e@)
    }
}

/// Where an entry with `score` goes into a table that is ordered from the
/// best score down: behind every entry that is at least as good.
pub open spec fn slot(table: Seq<EntryView>, score: nat) -> int
    decreases table.len(),
{
    if table.len() == 0 || table[0].score < score {
        0
    } else {
        1 + slot(table.drop_first(), score)
    }
}

/// `entries` ordered from the best score down. Entries with the same score
/// keep the order they had.
pub open spec fn ranked(entries: Seq<EntryView>) -> Seq<EntryView>
    decreases entries.len(),
{
    if entries.len() == 0 {
        entries
    } else {
        let front = ranked(entries.drop_last());
        front.insert(slot(front, entries.last().score), entries.last())
    }
}

/// The first `TABLE_SIZE` entries of `table`, or all if there are fewer.
pub open spec fn top(table: Seq<EntryView>) -> Seq<EntryView> {
    if table.len() > TABLE_SIZE {
        table.take(TABLE_SIZE as int)
    } else {
        table
    }
}

/// Whether the scores of `table` never rise from one entry to the next.
pub open spec fn descending(table: Seq<EntryView>) -> bool {
    forall|i: int, j: int| 0 <= i <= j < table.len() ==> table[i].score >= table[j].score
}

/// `slot` is a place within the table or at its end.
pub proof fn lemma_slot_bounds(table: Seq<EntryView>, score: nat)
    ensures
        0 <= slot(table, score) <= table.len(),
    decreases table.len(),
{
    if table.len() > 0 && table[0].score >= score {
        lemma_slot_bounds(table.drop_first(), score);
    }
}

/// Before its slot every entry of a table is at least as good as `score`;
/// in a descending table every entry from the slot on is worse.
pub proof fn lemma_slot_divides(table: Seq<EntryView>, score: nat)
    ensures
        forall|i: int| 0 <= i < slot(table, score) ==> table[i].score >= score,
        descending(table) ==> forall|i: int|
            slot(table, score) <= i < table.len() ==> table[i].score < score,
    decreases table.len(),
{
    lemma_slot_bounds(table, score);
    if table.len() > 0 && table[0].score >= score {
        let rest = table.drop_first();
        lemma_slot_divides(rest, score);
        lemma_slot_bounds(rest, score);
        assert forall|i: int| 0 <= i < slot(table, score) implies table[i].score >= score by {
            if i > 0 {
                assert(rest[i - 1] == table[i]);
            }
        }
        if descending(table) {
            assert forall|i: int, j: int| 0 <= i <= j < rest.len() implies rest[i].score
                >= rest[j].score by {
                assert(rest[i] == table[i + 1]);
                assert(rest[j] == table[j + 1]);
            }
            assert forall|i: int| slot(table, score) <= i < table.len() implies table[i].score
                < score by {
                assert(rest[i - 1] == table[i]);
            }
        }
    }
}

/// A ranked table is descending, and as long as what was ranked.
pub proof fn lemma_ranked_descending(entries: Seq<EntryView>)
    ensures
        descending(ranked(entries)),
        ranked(entries).len() == entries.len(),
    decreases entries.len(),
{
    if entries.len() > 0 {
        let front = ranked(entries.drop_last());
        let e = entries.last();
        let p = slot(front, e.score);
        lemma_ranked_descending(entries.drop_last());
        lemma_slot_bounds(front, e.score);
        lemma_slot_divides(front, e.score);
        let out = front.insert(p, e);
        assert forall|i: int, j: int| 0 <= i <= j < out.len() implies out[i].score
            >= out[j].score by {
            if i < p && j > p {
                assert(out[i] == front[i]);
                assert(out[j] == front[j - 1]);
            }
        }
    }
}

/// A ranked table holds the entries that were ranked, each as often.
pub proof fn lemma_ranked_permutes(entries: Seq<EntryView>)
    ensures
        ranked(entries).to_multiset() == entries.to_multiset(),
    decreases entries.len(),
{
    if entries.len() > 0 {
        let rest = entries.drop_last();
        let front = ranked(rest);
        let e = entries.last();
        lemma_ranked_permutes(rest);
        lemma_slot_bounds(front, e.score);
        vstd::seq_lib::to_multiset_insert(front, slot(front, e.score), e);
        assert(entries =~= rest.push(e));
        vstd::seq_lib::to_multiset_build(rest, e);
    } else {
        assert(ranked(entries) =~= entries);
    }
}

/// The place at which the entries stop being at least as good as `score`
/// is the slot.
pub proof fn lemma_slot_is(table: Seq<EntryView>, score: nat, p: int)
    requires
        0 <= p <= table.len(),
        forall|i: int| 0 <= i < p ==> table[i].score >= score,
        p < table.len() ==> table[p].score < score,
    ensures
        slot(table, score) == p,
    decreases table.len(),
{
    if p > 0 {
        let rest = table.drop_first();
        assert forall|i: int| 0 <= i < p - 1 implies rest[i].score >= score by {
            assert(rest[i] == table[i + 1]);
        }
        if p < table.len() {
            assert(rest[p - 1] == table[p]);
        }
        lemma_slot_is(rest, score, p - 1);
    }
}

/// The entries that hold a given score stand in a ranked table in the
/// order in which they stood before.
pub proof fn lemma_ranked_stable(entries: Seq<EntryView>, score: nat)
    ensures
        ranked(entries).filter(|e: EntryView| e.score == score) == entries.filter(
            |e: EntryView| e.score == score,
        ),
    decreases entries.len(),
{
    let pred = |e: EntryView| e.score == score;
    reveal(Seq::filter);
    if entries.len() > 0 {
        let rest = entries.drop_last();
        let e = entries.last();
        let front = ranked(rest);
        let p = slot(front, e.score);
        lemma_ranked_stable(rest, score);
        lemma_ranked_descending(rest);
        lemma_slot_bounds(front, e.score);
        lemma_slot_divides(front, e.score);
        let before = front.take(p);
        let after = front.skip(p);
        let one = seq![e];
        assert(front =~= before + after);
        assert(front.insert(p, e) =~= (before + one) + after);
        Seq::filter_distributes_over_add(before, after, pred);
        Seq::filter_distributes_over_add(before + one, after, pred);
        Seq::filter_distributes_over_add(before, one, pred);
        assert(one.drop_last() =~= Seq::<EntryView>::empty());
        assert(one.drop_last().filter(pred) =~= Seq::<EntryView>::empty());
        if e.score == score {
            assert forall|i: int| 0 <= i < after.len() implies !pred(after[i]) by {
                assert(after[i] == front[p + i]);
            }
            after.lemma_all_neg_filter_empty(pred);
            assert(one.filter(pred) =~= one);
            assert(ranked(entries).filter(pred) =~= front.filter(pred).push(e));
        } else {
            assert(one.filter(pred) =~= Seq::<EntryView>::empty());
            assert(ranked(entries).filter(pred) =~= front.filter(pred));
        }
    }
}

/// A table that is descending is ranked as it stands.
pub proof fn lemma_ranked_of_descending(table: Seq<EntryView>)
    requires
        descending(table),
    ensures
        ranked(table) == table,
    decreases table.len(),
{
    if table.len() > 0 {
        let front = table.drop_last();
        assert forall|i: int, j: int| 0 <= i <= j < front.len() implies front[i].score
            >= front[j].score by {
            assert(front[i] == table[i]);
            assert(front[j] == table[j]);
        }
        lemma_ranked_of_descending(front);
        assert forall|i: int| 0 <= i < front.len() implies front[i].score
            >= table.last().score by {
            assert(front[i] == table[i]);
        }
        lemma_slot_is(front, table.last().score, front.len() as int);
        assert(front.insert(front.len() as int, table.last()) =~= table);
    } else {
        assert(ranked(table) =~= table);
    }
}

/// After a score has been entered the table is descending and holds at
/// most `TABLE_SIZE` entries: all that were entered, if they are as few.
pub proof fn lemma_table_kept(entries: Seq<EntryView>)
    ensures
        descending(top(ranked(entries))),
        top(ranked(entries)).len() == if entries.len() > TABLE_SIZE {
            TABLE_SIZE as nat
        } else {
            entries.len()
        },
{
    lemma_ranked_descending(entries);
    let all = ranked(entries);
    let kept = top(all);
    assert forall|i: int, j: int| 0 <= i <= j < kept.len() implies kept[i].score
        >= kept[j].score by {
        assert(kept[i] == all[i]);
        assert(kept[j] == all[j]);
    }
}

/// A score that does not beat the last entry of a full, descending table
/// leaves the table as it was.
pub proof fn lemma_no_place(table: Seq<EntryView>, entry: EntryView)
    requires
        descending(table),
        table.len() == TABLE_SIZE,
        entry.score <= table.last().score,
    ensures
        top(ranked(table.push(entry))) == table,
{
    let all = table.push(entry);
    assert(all.drop_last() =~= table);
    lemma_ranked_of_descending(table);
    assert forall|i: int| 0 <= i < table.len() implies table[i].score >= entry.score by {
        assert(table[i].score >= table[table.len() - 1].score);
    }
    lemma_slot_is(table, entry.score, table.len() as int);
    assert(ranked(all) == table.insert(table.len() as int, entry));
    assert(top(ranked(all)) =~= table);
}

/// What the entries of a vector say, in their order.
pub open spec fn views(entries: Seq<HighScoreEntry>) -> Seq<EntryView> {
    entries.map_values(|e: HighScoreEntry| e@)
}

fn insert_ranked(sorted: &mut Vec<HighScoreEntry>, entry: HighScoreEntry)
    ensures
        views(final(sorted)@) == views(old(sorted)@).insert(
            slot(views(old(sorted)@), entry.score as nat),
            entry@,
        ),
{
    let mut p: usize = 0;
    while p < sorted.len() && sorted[p].score >= entry.score
        invariant
            p <= sorted.len(),
            forall|i: int| 0 <= i < p ==> views(sorted@)[i].score >= entry.score,
        decreases sorted.len() - p,
    {
        p = p + 1;
    }
    proof {
        lemma_slot_is(views(sorted@), entry.score as nat, p as int);
    }
    let ghost before = sorted@;
    let ghost said = entry@;
    sorted.insert(p, entry);
    assert(views(sorted@) =~= views(before).insert(p as int, said));
}

/// Whether `score` earns a place in `table`: the table is not full, or
/// `score` beats its last entry.
pub open spec fn earns_place(table: Seq<EntryView>, score: nat) -> bool {
    table.len() < TABLE_SIZE || score > table.last().score
}

impl HighScores {
    /// Whether `score` earns a place in the table: the table is not full,
    /// or `score` beats its last entry.
    pub fn is_high_score(&self, score: u64) -> (earned: bool)
        ensures
            earned == earns_place(self@, score as nat),
    {
        let len: usize = self.scores.len();
        if len < TABLE_SIZE {
            return true;
        }
        score > self.scores[len - 1].score
    }

    /// Enters `score` under `name`: the table with the new entry at its
    /// end is ranked, and its first `TABLE_SIZE` entries are kept.
    pub fn add_score(&mut self, name: String, score: u64)
        ensures
            final(self)@ == top(
                ranked(old(self)@.push(EntryView { name: name@, score: score as nat })),
            ),
    {
        let ghost said = EntryView { name: name@, score: score as nat };
        self.scores.push(HighScoreEntry { name, score });
        let ghost all = self@;
        assert(all =~= old(self)@.push(said));
        let mut pending: Vec<HighScoreEntry> = Vec::new();
        core::mem::swap(&mut pending, &mut self.scores);
        let mut sorted: Vec<HighScoreEntry> = Vec::new();
        let ghost mut k: int = 0;
        assert(all.take(0) =~= Seq::<EntryView>::empty());
        while pending.len() > 0
            invariant
                0 <= k <= all.len(),
                views(pending@) == all.skip(k),
                views(sorted@) == ranked(all.take(k)),
            decreases pending.len(),
        {
            let ghost rest = pending@;
            let entry = pending.remove(0);
            proof {
                assert(views(rest).len() == rest.len());
                assert(all.skip(k).len() == all.len() - k);
                assert(k < all.len());
                assert(views(rest)[0] == all.skip(k)[0]);
                assert forall|i: int| 0 <= i < pending@.len() implies views(pending@)[i]
                    == all.skip(k + 1)[i] by {
                    assert(pending@[i] == rest[i + 1]);
                    assert(views(rest)[i + 1] == all.skip(k)[i + 1]);
                }
                assert(views(pending@) =~= all.skip(k + 1));
                assert(all.take(k + 1).drop_last() =~= all.take(k));
                assert(all.take(k + 1).last() == entry@);
                k = k + 1;
            }
            insert_ranked(&mut sorted, entry);
        }
        proof {
            assert(all.take(k) =~= all);
            lemma_ranked_descending(all);
        }
        if sorted.len() > TABLE_SIZE {
            let ghost full = sorted@;
            sorted.truncate(TABLE_SIZE);
            assert(views(sorted@) =~= views(full).take(TABLE_SIZE as int));
        }
        self.scores = sorted;
    }
}

impl Default for HighScores {
    fn default() -> (table: HighScores)
        ensures
            table@.len() == 0,
    {
        HighScores { scores: Vec::new() }
    }
}

/// The score of the running game and the text that shows it.
#[derive(Debug)]
pub struct ScoreText {
    pub text: String,
    pub score: u64,
}

impl Default for ScoreText {
    fn default() -> (score: ScoreText)
        ensures
            score.text@.len() == 0,
            score.score == 0,
    {
        ScoreText { text: String::new(), score: 0 }
    }
}

/// The score with which the last game ended.
#[derive(Clone, Copy, Debug, PartialEq, Eq, Structural)]
pub struct FinalScore(pub u64);

impl Default for FinalScore {
    fn default() -> (score: FinalScore)
        ensures
            score.0 == 0,
    {
        FinalScore(0)
    }
}

/// The name as far as the player has typed it.
#[derive(Debug)]
pub struct PlayerNameInput(pub String);

impl Default for PlayerNameInput {
    fn default() -> (input: PlayerNameInput)
        ensures
            input.0@.len() == 0,
    {
        PlayerNameInput(String::new())
    }
}

/// What the score board shows after the game is over.
#[derive(Clone, Copy, Debug, PartialEq, Eq, Structural)]
pub enum ScoreboardState {
    Hidden,
    EnterName,
    ShowScores,
}

impl Default for ScoreboardState {
    fn default() -> (state: ScoreboardState)
        ensures
            state == ScoreboardState::Hidden,
    {
        ScoreboardState::Hidden
    }
}

/// Whether a game is running or over.
#[derive(Clone, Copy, Debug, PartialEq, Eq, Hash, Structural)]
pub enum GameState {
    Playing,
    GameOver,
}

impl Default for GameState {
    fn default() -> (state: GameState)
        ensures
            state == GameState::Playing,
    {
        GameState::Playing
    }
}

/// Paces the growth of the score.
pub struct ScoreTimer(pub Timer);

/// What the score board starts a game with.
#[derive(Debug)]
pub struct ScoreboardSetup {
    pub high_scores: HighScores,
    pub state: ScoreboardState,
    pub name_input: PlayerNameInput,
    pub final_score: FinalScore,
}

/// Heading of the score display before the first score is shown.
pub const SCORE_HEADING: &'static str = "Score:";

/// Heading of the table.
pub const TABLE_HEADING: &'static str = "HIGH SCORES";

/// Hint under the table.
pub const RESTART_HINT: &'static str = "Press R to Restart";

/// The name under which a score is entered when the player typed none.
pub const NO_NAME: &'static str = "Anonymous";

/// Starts the score board of a new game: the table as it was loaded, or an
/// empty one if none could be loaded; nothing shown, no name typed, and
/// both scores at zero.
pub fn setup_scoreboard(loaded: Option<HighScores>, score_text: &mut ScoreText) -> (setup:
    ScoreboardSetup)
    ensures
        setup.high_scores@ == match loaded {
            Some(table) => table@,
            None => Seq::empty(),
        },
        setup.state == ScoreboardState::Hidden,
        setup.name_input.0@.len() == 0,
        setup.final_score.0 == 0,
        final(score_text).score == 0,
        final(score_text).text == old(score_text).text,
{
    let high_scores = match loaded {
        Some(table) => table,
        None => HighScores::default(),
    };
    score_text.score = 0;
    ScoreboardSetup {
        high_scores,
        state: ScoreboardState::Hidden,
        name_input: PlayerNameInput(String::new()),
        final_score: FinalScore(0),
    }
}

/// The score after `gain` has been added: their sum, up to the greatest
/// score there is.
pub open spec fn gained(score: u64, gain: u64) -> u64 {
    if score + gain > u64::MAX {
        u64::MAX
    } else {
        (score + gain) as u64
    }
}

/// Adds `gain` to the score if the score timer has run out.
pub fn add_gain(finished: bool, score_text: &mut ScoreText, gain: u64)
    ensures
        final(score_text).score == if finished {
            gained(old(score_text).score, gain)
        } else {
            old(score_text).score
        },
        final(score_text).text == old(score_text).text,
{
    if finished {
        score_text.score = score_text.score.saturating_add(gain);
    }
}

/// Advances the score timer by `delta` and adds `gain` to the score if the
/// timer has just run out. The result tells whether it was added.
pub fn increase_score_system(
    delta: Duration,
    score_timer: &mut ScoreTimer,
    score_text: &mut ScoreText,
    gain: u64,
) -> (added: bool)
    ensures
        final(score_timer).0 == ticked(old(score_timer).0, delta),
        added == rings(ticked(old(score_timer).0, delta)),
        final(score_text).score == if added {
            gained(old(score_text).score, gain)
        } else {
            old(score_text).score
        },
        final(score_text).text == old(score_text).text,
{
    tick(&mut score_timer.0, delta);
    let finished = just_finished(&score_timer.0);
    add_gain(finished, score_text, gain);
    finished
}

/// The text that shows `score` during the game.
pub open spec fn score_label(score: nat) -> Seq<char> {
    "Score: "@ + decimal(score)
}

/// The text of the score display, or none if it is left as it is: it
/// changes while the first player is alive.
pub fn scoreboard_system(score: &ScoreText, players: &Vec<Player>) -> (label: Option<String>)
    ensures
        match label {
            Some(text) => players@.len() > 0 && !players@[0].is_dead && text@ == score_label(
                score.score as nat,
            ),
            None => players@.len() == 0 || players@[0].is_dead,
        },
{
    if players.len() == 0 || players[0].is_dead {
        return None;
    }
    let mut text = String::from_str("Score: ");
    push_decimal(&mut text, score.score);
    Some(text)
}

/// The line that announces a new high score.
pub open spec fn banner_text(score: nat) -> Seq<char> {
    "New High Score: "@ + decimal(score) + "!"@
}

/// The line that shows the name as far as it is typed, with a cursor.
pub open spec fn prompt_text(name: Seq<char>) -> Seq<char> {
    "Enter Name: "@ + name + "_"@
}

/// The line of the table for the entry with number `rank`.
pub open spec fn line_text(rank: nat, entry: EntryView) -> Seq<char> {
    decimal(rank) + ". "@ + entry.name + " - "@ + decimal(entry.score)
}

/// The text that asks for the name.
pub fn update_name_input_display(name_input: &PlayerNameInput) -> (text: String)
    ensures
        text@ == prompt_text(name_input.0@),
{
    let mut text = String::from_str("Enter Name: ");
    text.append(name_input.0.as_str());
    text.append("_");
    text
}

/// The two lines of the dialogue that asks for a name: the announcement of
/// the score, and the name as far as it is typed.
pub fn spawn_enter_name_ui(score: u64, current_name: &str) -> (lines: (String, String))
    ensures
        lines.0@ == banner_text(score as nat),
        lines.1@ == prompt_text(current_name@),
{
    let mut banner = String::from_str("New High Score: ");
    push_decimal(&mut banner, score);
    banner.append("!");
    let mut prompt = String::from_str("Enter Name: ");
    prompt.append(current_name);
    prompt.append("_");
    (banner, prompt)
}

/// A line of the table on screen.
#[derive(Clone, Debug)]
pub struct ScoreLine {
    pub text: String,
    /// Whether the line stands out because it holds the player's score.
    pub highlighted: bool,
}

/// What a line of the table on screen says.
pub struct LineView {
    pub text: Seq<char>,
    pub highlighted: bool,
}

impl View for ScoreLine {
    type V = LineView;

    open spec fn view(&self) -> LineView {
        LineView { text: self.text@, highlighted: self.highlighted }
    }
}

/// The lines of the table: one for each entry, numbered from one, and
/// highlighted where the entry holds `user_score`.
pub open spec fn table_lines(table: Seq<EntryView>, user_score: nat) -> Seq<LineView> {
    Seq::new(
        table.len(),
        |i: int|
            LineView {
                text: line_text((i + 1) as nat, table[i]),
                highlighted: table[i].score == user_score,
            },
    )
}

/// The lines of the table as they are shown to a player who scored
/// `user_score`.
pub fn spawn_high_score_list(high_scores: &HighScores, user_score: u64) -> (lines: Vec<ScoreLine>)
    ensures
        lines@.map_values(|l: ScoreLine| l@) == table_lines(high_scores@, user_score as nat),
{
    let mut lines: Vec<ScoreLine> = Vec::new();
    let mut i: usize = 0;
    while i < high_scores.scores.len()
        invariant
            i <= high_scores.scores.len(),
            lines@.len() == i,
            forall|j: int|
                0 <= j < i ==> (#[trigger] lines@[j])@ == table_lines(
                    high_scores@,
                    user_score as nat,
                )[j],
        decreases high_scores.scores.len() - i,
    {
        let entry = &high_scores.scores[i];
        let mut text = String::new();
        push_decimal(&mut text, (i + 1) as u64);
        text.append(". ");
        text.append(entry.name.as_str());
        text.append(" - ");
        push_decimal(&mut text, entry.score);
        assert(text@ =~= line_text((i + 1) as nat, entry@));
        lines.push(ScoreLine { text, highlighted: entry.score == user_score });
        i = i + 1;
    }
    assert(lines@.map_values(|l: ScoreLine| l@) =~= table_lines(high_scores@, user_score as nat));
    lines
}

/// What the end of a game decides: the score it ended with, and what the
/// score board shows first.
#[derive(Clone, Copy, Debug, PartialEq, Eq, Structural)]
pub struct GameEnd {
    pub final_score: FinalScore,
    pub state: ScoreboardState,
}

/// Whether any of the players is dead.
pub open spec fn any_dead(players: Seq<Player>) -> bool {
    exists|i: int| 0 <= i < players.len() && (#[trigger] players[i]).is_dead
}

/// How a game with this score ends: the score becomes the final score, and
/// the score board asks for a name if the score earns a place in the
/// table, and shows the table otherwise.
pub open spec fn game_end(score: u64, table: Seq<EntryView>) -> GameEnd {
    GameEnd {
        final_score: FinalScore(score),
        state: if earns_place(table, score as nat) {
            ScoreboardState::EnterName
        } else {
            ScoreboardState::ShowScores
        },
    }
}

/// Ends the game when a player is dead. The result is how it ends, or none
/// while every player is alive.
pub fn handle_player_death(players: &Vec<Player>, score: &ScoreText, high_scores: &HighScores) -> (end:
    Option<GameEnd>)
    ensures
        end == if any_dead(players@) {
            Some(game_end(score.score, high_scores@))
        } else {
            None
        },
{
    let mut i: usize = 0;
    while i < players.len()
        invariant
            i <= players.len(),
            forall|j: int| 0 <= j < i ==> !(#[trigger] players@[j]).is_dead,
        decreases players.len() - i,
    {
        if players[i].is_dead {
            let state = if high_scores.is_high_score(score.score) {
                ScoreboardState::EnterName
            } else {
                ScoreboardState::ShowScores
            };
            return Some(GameEnd { final_score: FinalScore(score.score), state });
        }
        i = i + 1;
    }
    None
}

/// What is on screen after the game is over.
#[derive(Debug)]
pub enum DeathUi {
    /// Nothing.
    Nothing,
    /// The dialogue that asks for a name: its two lines.
    EnterName { banner: String, prompt: String },
    /// The table: its lines, between `TABLE_HEADING` and `RESTART_HINT`.
    Scores(Vec<ScoreLine>),
}

/// Whether `ui` is what `state` shows for these scores and this name.
pub open spec fn shows(
    ui: DeathUi,
    state: ScoreboardState,
    table: Seq<EntryView>,
    name: Seq<char>,
    final_score: nat,
) -> bool {
    match state {
        ScoreboardState::Hidden => ui is Nothing,
        ScoreboardState::EnterName => ui matches DeathUi::EnterName { banner, prompt }
            && banner@ == banner_text(final_score) && prompt@ == prompt_text(name),
        ScoreboardState::ShowScores => ui matches DeathUi::Scores(lines) && lines@.map_values(
            |l: ScoreLine| l@,
        ) == table_lines(table, final_score),
    }
}

/// Follows a change of the score board's state.
///
/// While `state` is what was shown last, nothing changes and the result is
/// none. Otherwise the result is what replaces everything that was on
/// screen, and `state` is noted as shown.
pub fn update_death_scoreboard_ui(
    state: ScoreboardState,
    current_state: &mut ScoreboardState,
    high_scores: &HighScores,
    name_input: &PlayerNameInput,
    final_score: &FinalScore,
) -> (change: Option<DeathUi>)
    ensures
        *final(current_state) == state,
        match change {
            Some(ui) => state != *old(current_state) && shows(
                ui,
                state,
                high_scores@,
                name_input.0@,
                final_score.0 as nat,
            ),
            None => state == *old(current_state),
        },
{
    if state == *current_state {
        return None;
    }
    let ui = match state {
        ScoreboardState::EnterName => {
            let lines = spawn_enter_name_ui(final_score.0, name_input.0.as_str());
            DeathUi::EnterName { banner: lines.0, prompt: lines.1 }
        },
        ScoreboardState::ShowScores => DeathUi::Scores(
            spawn_high_score_list(high_scores, final_score.0),
        ),
        ScoreboardState::Hidden => DeathUi::Nothing,
    };
    *current_state = state;
    Some(ui)
}

/// A key event: whether the key went down, and the text of the key if it
/// stands for text.
#[derive(Clone, Debug)]
pub struct KeyPress {
    pub pressed: bool,
    pub text: Option<String>,
}

/// What is to be done after the keys have been handled.
#[derive(Clone, Copy, Debug, PartialEq, Eq)]
pub struct InputOutcome {
    /// Whether the table has changed and is to be saved.
    pub save_scores: bool,
    /// The state the game is to enter, if any.
    pub next_game_state: Option<GameState>,
}

/// The character that a key event types, if any: the key went down, its
/// text is a single character, and that is no control code.
pub open spec fn typed(event: KeyPress) -> Option<char> {
    match event.text {
        Some(text) => if event.pressed && text@.len() == 1 && !is_control(text@[0]) {
            Some(text@[0])
        } else {
            None
        },
        None => None,
    }
}

/// `name` after all that `events` type has been added to its end.
pub open spec fn typed_onto(name: Seq<char>, events: Seq<KeyPress>) -> Seq<char>
    decreases events.len(),
{
    if events.len() == 0 {
        name
    } else {
        let before = typed_onto(name, events.drop_last());
        match typed(events.last()) {
            Some(c) => before.push(c),
            None => before,
        }
    }
}

/// `name` without its last character if `backspace` was pressed and there
/// is one.
pub open spec fn erased(name: Seq<char>, backspace: bool) -> Seq<char> {
    if backspace && name.len() > 0 {
        name.drop_last()
    } else {
        name
    }
}

/// The name under which the score is entered: what was typed, or `NO_NAME`
/// if that is blank.
pub open spec fn entered_name(name: Seq<char>) -> Seq<char> {
    if is_blank(name) {
        NO_NAME@
    } else {
        name
    }
}

/// Handles the keys of one frame after the game is over.
///
/// While a name is asked for, the enter key enters the final score under
/// the name and shows the table, which is then to be saved; the keys typed
/// in the same frame are dropped. Without the enter key, backspace removes
/// the last character of the name, and then every typed character is added.
/// While the table is shown, the restart key starts a new game. While
/// nothing is shown no key does anything.
pub fn handle_input_system(
    enter: bool,
    backspace: bool,
    restart: bool,
    events: &Vec<KeyPress>,
    name_input: &mut PlayerNameInput,
    state: &mut ScoreboardState,
    high_scores: &mut HighScores,
    final_score: &FinalScore,
) -> (outcome: InputOutcome)
    ensures
        match *old(state) {
            ScoreboardState::EnterName => if enter {
                &&& *final(state) == ScoreboardState::ShowScores
                &&& final(name_input).0@ == old(name_input).0@
                &&& final(high_scores)@ == top(
                    ranked(
                        old(high_scores)@.push(
                            EntryView {
                                name: entered_name(old(name_input).0@),
                                score: final_score.0 as nat,
                            },
                        ),
                    ),
                )
                &&& outcome.save_scores
                &&& outcome.next_game_state is None
            } else {
                &&& *final(state) == ScoreboardState::EnterName
                &&& final(name_input).0@ == typed_onto(
                    erased(old(name_input).0@, backspace),
                    events@,
                )
                &&& final(high_scores)@ == old(high_scores)@
                &&& !outcome.save_scores
                &&& outcome.next_game_state is None
            },
            ScoreboardState::ShowScores => {
                &&& *final(state) == ScoreboardState::ShowScores
                &&& final(name_input).0@ == old(name_input).0@
                &&& final(high_scores)@ == old(high_scores)@
                &&& !outcome.save_scores
                &&& outcome.next_game_state == if restart {
                    Some(GameState::Playing)
                } else {
                    None
                }
            },
            ScoreboardState::Hidden => {
                &&& *final(state) == ScoreboardState::Hidden
                &&& final(name_input).0@ == old(name_input).0@
                &&& final(high_scores)@ == old(high_scores)@
                &&& !outcome.save_scores
                &&& outcome.next_game_state is None
            },
        },
{
    match *state {
        ScoreboardState::EnterName => {
            if enter {
                let name = if blank(name_input.0.as_str()) {
                    String::from_str(NO_NAME)
                } else {
                    name_input.0.clone()
                };
                high_scores.add_score(name, final_score.0);
                *state = ScoreboardState::ShowScores;
                return InputOutcome { save_scores: true, next_game_state: None };
            }
            if backspace {
                pop_char(&mut name_input.0);
            }
            let ghost start = name_input.0@;
            let mut i: usize = 0;
            while i < events.len()
                invariant
                    i <= events.len(),
                    name_input.0@ == typed_onto(start, events@.take(i as int)),
                decreases events.len() - i,
            {
                assert(events@.take(i + 1).drop_last() =~= events@.take(i as int));
                let event = &events[i];
                if event.pressed {
                    match &event.text {
                        Some(text) => {
                            if text.as_str().unicode_len() == 1 {
                                let ch = text.as_str().get_char(0);
                                if !char_is_control(ch) {
                                    push_char(&mut name_input.0, ch);
                                }
                            }
                        },
                        None => {},
                    }
                }
                i = i + 1;
            }
            assert(events@.take(events.len() as int) =~= events@);
            InputOutcome { save_scores: false, next_game_state: None }
        },
        ScoreboardState::ShowScores => {
            if restart {
                InputOutcome { save_scores: false, next_game_state: Some(GameState::Playing) }
            } else {
                InputOutcome { save_scores: false, next_game_state: None }
            }
        },
        ScoreboardState::Hidden => InputOutcome { save_scores: false, next_game_state: None },
    }
}

} // verus!
