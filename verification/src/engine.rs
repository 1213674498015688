//! What an edge of an input does.
//!
//! Nothing here touches a device, a task or a process. [`press_input`] decides
//! on a list of effects; the caller carries them out, in order.

use crate::config::{Config, Remap};
use std::time::Duration;
use vstd::prelude::*;

verus! {

/// How a key or a button is driven.
#[derive(Debug, Clone, Copy, PartialEq, Eq)]
pub enum Stroke {
    Press,
    Release,
    /// A press followed at once by a release.
    Click,
}

/// One call on the output device.
#[derive(Debug, PartialEq)]
pub enum DeviceOp {
    Key(enigo::Key, Stroke),
    Button(enigo::Button, Stroke),
}

/// One thing for the caller to carry out.
#[derive(Debug, PartialEq)]
pub enum Effect {
    /// Put the alternative table in force, or the main table.
    SetAlternative(bool),
    /// Take the output device once, make these calls in order, let it go.
    Inject(Vec<DeviceOp>),
    /// Stop the task in the repeat slot, if there is one, and empty the slot.
    CancelRepeat,
    /// Start a task that clicks the key again and again, and put it in the
    /// repeat slot.
    StartRepeat(enigo::Key),
    /// Launch the first word as a program with the other words as its
    /// arguments, and do not wait for it.
    Launch(Vec<String>),
}

/// An [`Effect`] as contracts speak of it: lists as sequences, strings as
/// sequences of characters.
pub enum EffectView {
    SetAlternative(bool),
    Inject(Seq<DeviceOp>),
    CancelRepeat,
    StartRepeat(enigo::Key),
    Launch(Seq<Seq<char>>),
}

impl View for Effect {
    type V = EffectView;

    open spec fn view(&self) -> EffectView {
        match self {
            Effect::SetAlternative(alternative) => EffectView::SetAlternative(*alternative),
            Effect::Inject(ops) => EffectView::Inject(ops@),
            Effect::CancelRepeat => EffectView::CancelRepeat,
            Effect::StartRepeat(key) => EffectView::StartRepeat(*key),
            Effect::Launch(words) => EffectView::Launch(words.deep_view()),
        }
    }
}

/// The views of a list of effects.
pub open spec fn views(effects: Seq<Effect>) -> Seq<EffectView> {
    effects.map_values(|e: Effect| e@)
}

/// The words that `shlex::split` makes of a command line, or `None` where it
/// rejects the line.
pub uninterp spec fn shell_words(line: Seq<char>) -> Option<Seq<Seq<char>>>;

/// The string that `str::to_lowercase` makes of a string.
pub uninterp spec fn lowercase(s: Seq<char>) -> Seq<char>;

/// `shlex::split`: splits a command line into words as a POSIX shell would,
/// and gives `None` where the line ends inside a quotation or after a lone
/// backslash. The result depends on the line alone.
#[verifier::external_body]
fn split_words(line: &str) -> (words: Option<Vec<String>>)
    ensures
        words_view(words) == shell_words(line@),
{
    shlex::split(line)
}

/// `str::to_lowercase`: the lowercase equivalent of the string. The result
/// depends on the string alone.
#[verifier::external_body]
fn to_lowercase(s: &str) -> (lowered: String)
    ensures
        lowered@ == lowercase(s@),
{
    s.to_lowercase()
}

/// The words of a split command line as sequences of characters.
pub open spec fn words_view(words: Option<Vec<String>>) -> Option<Seq<Seq<char>>> {
    match words {
        Some(w) => Some(w.deep_view()),
        None => None,
    }
}

/// One stroke on each key, in the order of the keys.
pub open spec fn strokes(keys: Seq<enigo::Key>, stroke: Stroke) -> Seq<DeviceOp> {
    keys.map_values(|key: enigo::Key| DeviceOp::Key(key, stroke))
}

/// The input is the activator of the alternative table: the two names are
/// the same once both are put in lowercase.
pub open spec fn is_activator(config: &Config, input: Seq<char>) -> bool {
    config.alternative_activator matches Some(activator) && lowercase(input) == lowercase(
        activator@,
    )
}

/// What a split command line asks for: a launch if there is at least one
/// word, nothing if there is none or the line was rejected.
pub open spec fn launch(words: Option<Seq<Seq<char>>>) -> Seq<EffectView> {
    match words {
        Some(w) => if w.len() > 0 {
            seq![EffectView::Launch(w)]
        } else {
            seq![]
        },
        None => seq![],
    }
}

/// What an edge on an input asks for once the input is resolved to a remap.
pub open spec fn remap_effects(remap: Remap, is_press_down: bool) -> Seq<EffectView> {
    match remap {
        Remap::Sequence(keys) => if is_press_down {
            seq![
                EffectView::Inject(
                    strokes(keys@, Stroke::Press) + strokes(keys@.reverse(), Stroke::Release),
                ),
            ]
        } else {
            seq![]
        },
        Remap::Sync(keys) => if is_press_down {
            seq![EffectView::Inject(strokes(keys@, Stroke::Press))]
        } else {
            seq![EffectView::Inject(strokes(keys@.reverse(), Stroke::Release))]
        },
        Remap::Repeat(key) => if is_press_down {
            seq![
                EffectView::CancelRepeat,
                EffectView::Inject(seq![DeviceOp::Key(key, Stroke::Click)]),
                EffectView::StartRepeat(key),
            ]
        } else {
            seq![EffectView::CancelRepeat]
        },
        Remap::Mouse(button) => seq![
            EffectView::Inject(
                seq![
                    DeviceOp::Button(
                        button,
                        if is_press_down {
                            Stroke::Press
                        } else {
                            Stroke::Release
                        },
                    ),
                ],
            ),
        ],
        Remap::Command(line) => if is_press_down {
            launch(shell_words(line@))
        } else {
            seq![]
        },
    }
}

/// What an edge asks for. The activator puts the alternative table in force
/// when it is pressed and the main table when it is released, and does nothing
/// else. Any other input does what its remap says in the table in force, and
/// nothing if it has no entry there.
pub open spec fn effects(
    config: &Config,
    alternative: bool,
    input: Seq<char>,
    is_press_down: bool,
) -> Seq<EffectView> {
    if is_activator(config, input) {
        seq![EffectView::SetAlternative(is_press_down)]
    } else if config.table(alternative).contains_key(input) {
        remap_effects(config.table(alternative)[input], is_press_down)
    } else {
        seq![]
    }
}

/// The mode once a list of effects is carried out in order, from the mode
/// before.
pub open spec fn mode_after(alternative: bool, effects: Seq<EffectView>) -> bool
    decreases effects.len(),
{
    if effects.len() == 0 {
        alternative
    } else {
        match effects.last() {
            EffectView::SetAlternative(set) => set,
            _ => mode_after(alternative, effects.drop_last()),
        }
    }
}

/// Appends one stroke on each key, first key first.
fn push_forward(ops: &mut Vec<DeviceOp>, keys: &Vec<enigo::Key>, stroke: Stroke)
    ensures
        final(ops)@ == old(ops)@ + strokes(keys@, stroke),
{
    let mut i: usize = 0;
    while i < keys.len()
        invariant
            i <= keys.len(),
            ops@ == old(ops)@ + strokes(keys@.subrange(0, i as int), stroke),
        decreases keys.len() - i,
    {
        ops.push(DeviceOp::Key(keys[i], stroke));
        i += 1;
    }
    assert(keys@.subrange(0, i as int) == keys@);
}

/// Appends one stroke on each key, last key first.
fn push_backward(ops: &mut Vec<DeviceOp>, keys: &Vec<enigo::Key>, stroke: Stroke)
    ensures
        final(ops)@ == old(ops)@ + strokes(keys@.reverse(), stroke),
{
    let mut i: usize = keys.len();
    while i > 0
        invariant
            i <= keys.len(),
            ops@ == old(ops)@ + strokes(keys@.reverse().subrange(0, keys.len() - i), stroke),
        decreases i,
    {
        i -= 1;
        ops.push(DeviceOp::Key(keys[i], stroke));
    }
    assert(keys@.reverse().subrange(0, keys.len() as int) == keys@.reverse());
}

/// Tells whether the input is the activator of the alternative table.
pub fn names_activator(config: &Config, input_name: &str) -> (r: bool)
    ensures
        r == is_activator(config, input_name@),
{
    match &config.alternative_activator {
        Some(activator) => {
            let wanted: String = to_lowercase(activator.as_str());
            let given: String = to_lowercase(input_name);
            wanted == given
        },
        None => false,
    }
}

/// Turns a split command line into a launch, or into nothing if there is no
/// word to launch.
pub fn launch_effects(words: Option<Vec<String>>) -> (out: Vec<Effect>)
    ensures
        views(out@) == launch(words_view(words)),
{
    let mut out: Vec<Effect> = Vec::new();
    match words {
        Some(w) => {
            if w.len() > 0 {
                out.push(Effect::Launch(w));
            }
        },
        None => {},
    }
    out
}

/// Decides what an edge on an input does once the input is resolved to a
/// remap.
pub fn effects_of(remap: &Remap, is_press_down: bool) -> (out: Vec<Effect>)
    ensures
        views(out@) == remap_effects(*remap, is_press_down),
{
    let mut out: Vec<Effect> = Vec::new();
    match remap {
        Remap::Sequence(keys) => {
            if is_press_down {
                let mut ops: Vec<DeviceOp> = Vec::new();
                push_forward(&mut ops, keys, Stroke::Press);
                push_backward(&mut ops, keys, Stroke::Release);
                out.push(Effect::Inject(ops));
            }
        },
        Remap::Sync(keys) => {
            let mut ops: Vec<DeviceOp> = Vec::new();
            if is_press_down {
                push_forward(&mut ops, keys, Stroke::Press);
            } else {
                push_backward(&mut ops, keys, Stroke::Release);
            }
            out.push(Effect::Inject(ops));
        },
        Remap::Repeat(key) => {
            out.push(Effect::CancelRepeat);
            if is_press_down {
                let mut ops: Vec<DeviceOp> = Vec::new();
                ops.push(DeviceOp::Key(*key, Stroke::Click));
                out.push(Effect::Inject(ops));
                out.push(Effect::StartRepeat(*key));
            }
        },
        Remap::Mouse(button) => {
            let stroke: Stroke = if is_press_down {
                Stroke::Press
            } else {
                Stroke::Release
            };
            let mut ops: Vec<DeviceOp> = Vec::new();
            ops.push(DeviceOp::Button(*button, stroke));
            out.push(Effect::Inject(ops));
        },
        Remap::Command(line) => {
            if is_press_down {
                return launch_effects(split_words(line.as_str()));
            }
        },
    }
    out
}

/// Decides what a press or a release of an input does, under the mode in
/// force.
///
/// The activator of the alternative table switches the mode and does nothing
/// else. Any other input is looked up in the table that the mode selects; with
/// no entry there it does nothing.
pub fn press_input(
    config: &Config,
    alternative: bool,
    input_name: &str,
    is_press_down: bool,
) -> (out: Vec<Effect>)
    ensures
        views(out@) == effects(config, alternative, input_name@, is_press_down),
{
    if names_activator(config, input_name) {
        let mut out: Vec<Effect> = Vec::new();
        out.push(Effect::SetAlternative(is_press_down));
        return out;
    }
    match config.get_remap(input_name, alternative) {
        Some(remap) => effects_of(remap, is_press_down),
        None => Vec::new(),
    }
}

/// The pause of a repeating task before its next click, from the number of
/// clicks it has made: the initial delay before the first and the sub delay
/// before every later one.
pub open spec fn pause(config: &Config, clicks: u64) -> Duration {
    if clicks == 0 {
        config.key_repeat_initial_delay
    } else {
        config.key_repeat_sub_delay
    }
}

/// Tells a repeating task how long to wait before its next click.
pub fn repeat_pause(config: &Config, clicks: u64) -> (wait: Duration)
    ensures
        wait == pause(config, clicks),
{
    if clicks == 0 {
        config.key_repeat_initial_delay
    } else {
        config.key_repeat_sub_delay
    }
}

/// The repeat slot and the repeating tasks that are alive, as the effects
/// change them.
pub struct RepeatTasks {
    /// The key of the task that the slot holds.
    pub slot: Option<enigo::Key>,
    /// The keys of the tasks alive, in the order in which they were started.
    pub alive: Seq<enigo::Key>,
}

impl RepeatTasks {
    /// No task is alive outside the slot: if the slot is empty none is alive,
    /// and otherwise the one in the slot is the only one.
    pub open spec fn settled(self) -> bool {
        self.alive == match self.slot {
            Some(key) => seq![key],
            None => Seq::<enigo::Key>::empty(),
        }
    }

    /// Slot and tasks once an effect is carried out. A cancellation stops the
    /// task in the slot, which is the one started last. A start puts a new task
    /// in the slot and stops nothing: whatever the slot held lives on.
    pub open spec fn after(self, effect: EffectView) -> RepeatTasks {
        match effect {
            EffectView::CancelRepeat => match self.slot {
                Some(_) => RepeatTasks { slot: None, alive: self.alive.drop_last() },
                None => self,
            },
            EffectView::StartRepeat(key) => RepeatTasks {
                slot: Some(key),
                alive: self.alive.push(key),
            },
            _ => self,
        }
    }

    /// Slot and tasks once a list of effects is carried out in order.
    pub open spec fn after_all(self, effects: Seq<EffectView>) -> RepeatTasks
        decreases effects.len(),
    {
        if effects.len() == 0 {
            self
        } else {
            self.after(effects[0]).after_all(effects.subrange(1, effects.len() as int))
        }
    }
}

/// Carrying out what a remap asks for leaves settled tasks settled. A
/// repeating key leaves its own task in the slot on a press and an empty slot
/// on a release; every other remap leaves slot and tasks as they were.
pub proof fn lemma_remap_keeps_tasks_settled(remap: Remap, is_press_down: bool, tasks: RepeatTasks)
    requires
        tasks.settled(),
    ensures
        tasks.after_all(remap_effects(remap, is_press_down)).settled(),
        tasks.after_all(remap_effects(remap, is_press_down)) == (match remap {
            Remap::Repeat(key) => if is_press_down {
                RepeatTasks { slot: Some(key), alive: seq![key] }
            } else {
                RepeatTasks { slot: None, alive: Seq::<enigo::Key>::empty() }
            },
            _ => tasks,
        }),
{
    reveal_with_fuel(RepeatTasks::after_all, 4);
    let list = remap_effects(remap, is_press_down);
    match remap {
        Remap::Repeat(key) => {
            if is_press_down {
                let cancelled = tasks.after(list[0]);
                assert(cancelled.alive =~= Seq::<enigo::Key>::empty());
                let rest = list.subrange(1, 3);
                assert(rest[0] == list[1]);
                assert(rest.subrange(1, 2)[0] == list[2]);
                assert(rest.subrange(1, 2).subrange(1, 1).len() == 0);
                let started = cancelled.after(list[1]).after(list[2]);
                assert(started.alive =~= seq![key]);
                assert(tasks.after_all(list) == started);
            } else {
                assert(tasks.after(list[0]).alive =~= Seq::<enigo::Key>::empty());
                assert(list.subrange(1, 1).len() == 0);
            }
        },
        _ => {
            if list.len() > 0 {
                assert(list.len() == 1);
                assert(list.subrange(1, 1).len() == 0);
                assert(tasks.after(list[0]) == tasks);
            }
        },
    }
}

/// At most one repeating task is alive, whatever edge arrives on whatever
/// input: carrying out the effects of an edge leaves settled tasks settled.
pub proof fn lemma_edge_keeps_tasks_settled(
    config: &Config,
    alternative: bool,
    input: Seq<char>,
    is_press_down: bool,
    tasks: RepeatTasks,
)
    requires
        tasks.settled(),
    ensures
        tasks.after_all(effects(config, alternative, input, is_press_down)).settled(),
{
    let list = effects(config, alternative, input, is_press_down);
    if is_activator(config, input) {
        reveal_with_fuel(RepeatTasks::after_all, 2);
        assert(list.subrange(1, 1).len() == 0);
    } else if config.table(alternative).contains_key(input) {
        lemma_remap_keeps_tasks_settled(config.table(alternative)[input], is_press_down, tasks);
    }
}

/// Two repeating keys pressed one after the other with no release between
/// them: after the second press the only task alive is that of the second
/// key, and the second press begins by cancelling, before it clicks its key.
pub proof fn lemma_second_repeat_replaces_first(
    config: &Config,
    alternative: bool,
    first: Seq<char>,
    second: Seq<char>,
    tasks: RepeatTasks,
)
    requires
        tasks.settled(),
        !is_activator(config, first),
        !is_activator(config, second),
        config.table(alternative).contains_key(first),
        config.table(alternative).contains_key(second),
        config.table(alternative)[first] is Repeat,
        config.table(alternative)[second] is Repeat,
    ensures
        ({
            let a = config.table(alternative)[first]->Repeat_0;
            let b = config.table(alternative)[second]->Repeat_0;
            let between = tasks.after_all(effects(config, alternative, first, true));
            let end = between.after_all(effects(config, alternative, second, true));
            &&& between == RepeatTasks { slot: Some(a), alive: seq![a] }
            &&& end == RepeatTasks { slot: Some(b), alive: seq![b] }
            &&& effects(config, alternative, second, true)[0] == EffectView::CancelRepeat
        }),
{
    let between = tasks.after_all(effects(config, alternative, first, true));
    lemma_remap_keeps_tasks_settled(config.table(alternative)[first], true, tasks);
    lemma_remap_keeps_tasks_settled(config.table(alternative)[second], true, between);
}

/// What a remap asks for never changes the mode.
pub proof fn lemma_remap_keeps_mode(remap: Remap, is_press_down: bool, alternative: bool)
    ensures
        mode_after(alternative, remap_effects(remap, is_press_down)) == alternative,
{
    reveal_with_fuel(mode_after, 4);
    let list = remap_effects(remap, is_press_down);
    if list.len() == 3 {
        assert(list.drop_last().last() == list[1]);
        assert(list.drop_last().drop_last().last() == list[0]);
    }
}

/// The activator switches tables and does nothing else: an edge on it asks
/// for the mode to be set, to alternative on a press and to main on a release,
/// whatever the tables hold under its name. An edge on any other input leaves
/// the mode as it is. So while the activator is held every other input does
/// what the alternative table says, and once it is released what the main
/// table says.
pub proof fn lemma_activator_switches_tables(
    config: &Config,
    alternative: bool,
    activator: Seq<char>,
    input: Seq<char>,
    is_press_down: bool,
)
    requires
        is_activator(config, activator),
        !is_activator(config, input),
    ensures
        effects(config, alternative, activator, is_press_down) == seq![
            EffectView::SetAlternative(is_press_down),
        ],
        mode_after(alternative, effects(config, alternative, activator, is_press_down))
            == is_press_down,
        mode_after(alternative, effects(config, alternative, input, is_press_down)) == alternative,
        ({
            let held = mode_after(alternative, effects(config, alternative, activator, true));
            let released = mode_after(held, effects(config, held, activator, false));
            &&& effects(config, held, input, is_press_down) == (if config.alt@.contains_key(input) {
                remap_effects(config.alt@[input], is_press_down)
            } else {
                Seq::<EffectView>::empty()
            })
            &&& effects(config, released, input, is_press_down) == (if config.main@.contains_key(
                input,
            ) {
                remap_effects(config.main@[input], is_press_down)
            } else {
                Seq::<EffectView>::empty()
            })
        }),
{
    reveal_with_fuel(mode_after, 2);
    if config.table(alternative).contains_key(input) {
        lemma_remap_keeps_mode(config.table(alternative)[input], is_press_down, alternative);
    }
}

} // verus!
