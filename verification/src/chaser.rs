//! The sequencer: which register access or pause the firmware performs next,
//! and a model of the three registers on which the pattern can be followed.

use vstd::prelude::*;
use crate::leds::{
    configure_led_pins, enable_gpiod_clock, law_one_lit_is_one_mask, leds_off, leds_on, lit_count,
};
use crate::registers::{
    Register, ALL_LEDS, DELAY_COUNT, LED_BLUE, LED_COUNT, LED_GREEN, LED_ORANGE, LED_RED,
};

verus! {

/// The order in which the LEDs are lit.
pub open spec fn led_sequence() -> Seq<u32> {
    seq![LED_GREEN, LED_ORANGE, LED_RED, LED_BLUE]
}

/// Position in the circle that follows `index`.
pub open spec fn spec_next_index(index: usize) -> usize {
    ((index + 1) % 4) as usize
}

/// Position in the circle that precedes `index`.
pub open spec fn prev_index(index: int) -> int {
    (index + 3) % 4
}

/// Mask of the LED at position `index` of the circle.
pub fn led_at(index: usize) -> (mask: u32)
    requires
        index < LED_COUNT,
    ensures
        mask == led_sequence()[index as int],
        mask & ALL_LEDS == mask,
        lit_count(mask) == 1,
{
    let mask: u32 = if index == 0 {
        LED_GREEN
    } else if index == 1 {
        LED_ORANGE
    } else if index == 2 {
        LED_RED
    } else {
        LED_BLUE
    };
    proof {
        assert(0x1000u32 & 0xF000u32 == 0x1000u32 && 0x2000u32 & 0xF000u32 == 0x2000u32 && 0x4000u32
            & 0xF000u32 == 0x4000u32 && 0x8000u32 & 0xF000u32 == 0x8000u32) by (bit_vector);
        law_one_lit_is_one_mask(mask);
    }
    mask
}

/// Position in the circle that follows `index`: one further, and from the
/// last position back to the first.
#[verifier::when_used_as_spec(spec_next_index)]
pub fn next_index(index: usize) -> (next: usize)
    requires
        index < LED_COUNT,
    ensures
        next == spec_next_index(index),
        next == (index + 1) % 4,
        next < LED_COUNT,
{
    (index + 1) % LED_COUNT
}

/// What the firmware is about to do.
#[derive(Clone, Copy, Debug, PartialEq, Eq, Structural)]
pub enum Phase {
    /// Switch on the clock of the GPIO bank.
    EnableClock,
    /// Make the LED pins outputs.
    ConfigurePins,
    /// Switch all LEDs off.
    Clear,
    /// Switch the current LED on and move on to the next position.
    Light,
    /// Wait with the pattern showing.
    Pause,
}

/// One thing for the firmware to do: a read-modify-write access to one
/// register, or a busy-wait.
#[derive(Clone, Copy, Debug, PartialEq, Eq, Structural)]
pub enum Action {
    /// Switch on the clock of the GPIO bank in the clock enable register.
    EnableClock,
    /// Make the LED pins outputs in the pin mode register.
    ConfigurePins,
    /// Switch off the LEDs of the mask in the output data register.
    LedsOff(u32),
    /// Switch on the LEDs of the mask in the output data register.
    LedsOn(u32),
    /// Spin for the given number of iterations.
    Delay(u32),
}

impl Action {
    /// The register that the action reads and writes back; none for a pause.
    pub open spec fn spec_register(self) -> Option<Register> {
        match self {
            Action::EnableClock => Some(Register::ClockEnable),
            Action::ConfigurePins => Some(Register::PinMode),
            Action::LedsOff(_) => Some(Register::OutputData),
            Action::LedsOn(_) => Some(Register::OutputData),
            Action::Delay(_) => None,
        }
    }

    /// The word that the action writes back to its register after reading
    /// `word` from it; `word` itself for a pause.
    pub open spec fn spec_apply(self, word: u32) -> u32 {
        match self {
            Action::EnableClock => enable_gpiod_clock(word),
            Action::ConfigurePins => configure_led_pins(word),
            Action::LedsOff(mask) => leds_off(word, mask),
            Action::LedsOn(mask) => leds_on(word, mask),
            Action::Delay(_) => word,
        }
    }

    /// Iterations to spin for; zero for a register access.
    pub open spec fn spec_delay_count(self) -> u32 {
        match self {
            Action::Delay(count) => count,
            _ => 0,
        }
    }

    /// The register that the action reads and writes back; none for a pause.
    #[verifier::when_used_as_spec(spec_register)]
    pub fn register(self) -> (r: Option<Register>)
        ensures
            r == self.spec_register(),
    {
        match self {
            Action::EnableClock => Some(Register::ClockEnable),
            Action::ConfigurePins => Some(Register::PinMode),
            Action::LedsOff(_) => Some(Register::OutputData),
            Action::LedsOn(_) => Some(Register::OutputData),
            Action::Delay(_) => None,
        }
    }

    /// The word that the action writes back to its register after reading
    /// `word` from it; `word` itself for a pause.
    #[verifier::when_used_as_spec(spec_apply)]
    pub fn apply(self, word: u32) -> (r: u32)
        ensures
            r == self.spec_apply(word),
    {
        match self {
            Action::EnableClock => enable_gpiod_clock(word),
            Action::ConfigurePins => configure_led_pins(word),
            Action::LedsOff(mask) => leds_off(word, mask),
            Action::LedsOn(mask) => leds_on(word, mask),
            Action::Delay(_) => word,
        }
    }

    /// Iterations to spin for; zero for a register access.
    #[verifier::when_used_as_spec(spec_delay_count)]
    pub fn delay_count(self) -> (count: u32)
        ensures
            count == self.spec_delay_count(),
    {
        match self {
            Action::Delay(count) => count,
            _ => 0,
        }
    }
}

/// The three registers as plain words. A write is in effect as soon as it is
/// made, and nothing but an action changes a register.
#[derive(Clone, Copy, Debug, PartialEq, Eq, Structural)]
pub struct Board {
    /// Word of the clock enable register.
    pub clock_enable: u32,
    /// Word of the pin mode register.
    pub pin_mode: u32,
    /// Word of the output data register.
    pub output_data: u32,
}

impl Board {
    /// The word held by a register.
    pub open spec fn spec_read(&self, register: Register) -> u32 {
        match register {
            Register::ClockEnable => self.clock_enable,
            Register::PinMode => self.pin_mode,
            Register::OutputData => self.output_data,
        }
    }

    /// The board with one register overwritten.
    pub open spec fn with(self, register: Register, word: u32) -> Board {
        match register {
            Register::ClockEnable => Board { clock_enable: word, ..self },
            Register::PinMode => Board { pin_mode: word, ..self },
            Register::OutputData => Board { output_data: word, ..self },
        }
    }

    /// The board after an action: the action's register holds what the action
    /// makes of its old word, the others are unchanged. A pause changes none.
    pub open spec fn after(self, action: Action) -> Board {
        match action.register() {
            Some(register) => self.with(register, action.apply(self.spec_read(register))),
            None => self,
        }
    }

    /// The word held by a register.
    #[verifier::when_used_as_spec(spec_read)]
    pub fn read(&self, register: Register) -> (word: u32)
        ensures
            word == self.spec_read(register),
    {
        match register {
            Register::ClockEnable => self.clock_enable,
            Register::PinMode => self.pin_mode,
            Register::OutputData => self.output_data,
        }
    }

    /// Overwrites one register.
    pub fn write(&mut self, register: Register, word: u32)
        ensures
            *final(self) == old(self).with(register, word),
    {
        match register {
            Register::ClockEnable => {
                self.clock_enable = word;
            },
            Register::PinMode => {
                self.pin_mode = word;
            },
            Register::OutputData => {
                self.output_data = word;
            },
        }
    }

    /// Performs an action on the board: reads the action's register, and
    /// writes back what the action makes of the word. A pause changes nothing.
    pub fn perform(&mut self, action: Action)
        ensures
            *final(self) == old(self).after(action),
    {
        match action.register() {
            Some(register) => {
                let word: u32 = self.read(register);
                self.write(register, action.apply(word));
            },
            None => {},
        }
    }
}

/// What the sequencer remembers: what it is about to do, and the position in
/// the circle of the LED that is lit next.
pub struct ChaserState {
    pub phase: Phase,
    pub index: int,
}

impl ChaserState {
    /// The position is one of the four of the circle.
    pub open spec fn wf(self) -> bool {
        0 <= self.index < 4
    }

    /// Where the firmware starts: at the clock, with the first LED to come.
    pub open spec fn initial() -> ChaserState {
        ChaserState { phase: Phase::EnableClock, index: 0 }
    }

    /// The action that the sequencer hands out in this state.
    pub open spec fn action(self) -> Action {
        match self.phase {
            Phase::EnableClock => Action::EnableClock,
            Phase::ConfigurePins => Action::ConfigurePins,
            Phase::Clear => Action::LedsOff(ALL_LEDS),
            Phase::Light => Action::LedsOn(led_sequence()[self.index]),
            Phase::Pause => Action::Delay(DELAY_COUNT),
        }
    }

    /// The state after that action was handed out. The clock comes before the
    /// pins, the pins before the pattern; the pattern repeats clearing,
    /// lighting and pausing for ever, and lighting moves the position on by
    /// one, from the last back to the first.
    pub open spec fn next(self) -> ChaserState {
        match self.phase {
            Phase::EnableClock => ChaserState { phase: Phase::ConfigurePins, index: self.index },
            Phase::ConfigurePins => ChaserState { phase: Phase::Clear, index: self.index },
            Phase::Clear => ChaserState { phase: Phase::Light, index: self.index },
            Phase::Light => ChaserState { phase: Phase::Pause, index: (self.index + 1) % 4 },
            Phase::Pause => ChaserState { phase: Phase::Clear, index: self.index },
        }
    }

    /// The state after `count` actions were handed out.
    pub open spec fn skip(self, count: nat) -> ChaserState
        decreases count,
    {
        if count == 0 {
            self
        } else {
            self.skip((count - 1) as nat).next()
        }
    }

    /// The firmware shows the pattern: it pauses, or is about to clear the
    /// LEDs for the next step.
    pub open spec fn showing(self) -> bool {
        self.phase == Phase::Pause || self.phase == Phase::Clear
    }
}

/// The board after the sequencer, starting in `state`, handed out `count`
/// actions and each was performed on it.
pub open spec fn run(state: ChaserState, board: Board, count: nat) -> Board
    decreases count,
{
    if count == 0 {
        board
    } else {
        run(state, board, (count - 1) as nat).after(state.skip((count - 1) as nat).action())
    }
}

/// The steady state of the pattern: the firmware shows it, and the LED bits
/// of the output data register are those of the LED before the position that
/// comes next.
pub open spec fn steady(state: ChaserState, board: Board) -> bool {
    &&& state.wf()
    &&& state.showing()
    &&& board.output_data & ALL_LEDS == led_sequence()[prev_index(state.index)]
}

/// The sequencer of the firmware. It hands out one action after the other;
/// the firmware performs each before it asks for the next.
pub struct Chaser {
    phase: Phase,
    index: usize,
}

impl View for Chaser {
    type V = ChaserState;

    closed spec fn view(&self) -> ChaserState {
        ChaserState { phase: self.phase, index: self.index as int }
    }
}

impl Chaser {
    #[verifier::type_invariant]
    spec fn inv(self) -> bool {
        self.index < LED_COUNT
    }

    /// A sequencer at the start of the firmware.
    pub fn new() -> (chaser: Chaser)
        ensures
            chaser@ == ChaserState::initial(),
            chaser@.wf(),
    {
        Chaser { phase: Phase::EnableClock, index: 0 }
    }

    /// What the sequencer is about to do.
    pub fn phase(&self) -> (phase: Phase)
        ensures
            phase == self@.phase,
    {
        self.phase
    }

    /// Position in the circle of the LED that is lit next.
    pub fn index(&self) -> (index: usize)
        ensures
            index == self@.index,
            index < LED_COUNT,
            self@.wf(),
    {
        proof {
            use_type_invariant(self);
        }
        self.index
    }

    /// Hands out the next action and moves on.
    pub fn next(&mut self) -> (action: Action)
        ensures
            action == old(self)@.action(),
            final(self)@ == old(self)@.next(),
            old(self)@.wf(),
            final(self)@.wf(),
    {
        proof {
            use_type_invariant(&*self);
        }
        match self.phase {
            Phase::EnableClock => {
                self.phase = Phase::ConfigurePins;
                Action::EnableClock
            },
            Phase::ConfigurePins => {
                self.phase = Phase::Clear;
                Action::ConfigurePins
            },
            Phase::Clear => {
                self.phase = Phase::Light;
                Action::LedsOff(ALL_LEDS)
            },
            Phase::Light => {
                let mask: u32 = led_at(self.index);
                self.index = next_index(self.index);
                self.phase = Phase::Pause;
                Action::LedsOn(mask)
            },
            Phase::Pause => {
                self.phase = Phase::Clear;
                Action::Delay(DELAY_COUNT)
            },
        }
    }
}

/// Hands out `count` actions and performs each on the board, as the firmware
/// does on the registers. The pauses take no time here.
pub fn simulate(chaser: &mut Chaser, board: &mut Board, count: usize)
    ensures
        final(chaser)@ == old(chaser)@.skip(count as nat),
        *final(board) == run(old(chaser)@, *old(board), count as nat),
{
    let ghost start = chaser@;
    let ghost before = *board;
    let mut done: usize = 0;
    while done < count
        invariant
            done <= count,
            chaser@ == start.skip(done as nat),
            *board == run(start, before, done as nat),
        decreases count - done,
    {
        let action: Action = chaser.next();
        board.perform(action);
        done = done + 1;
    }
}

proof fn lemma_skip_split(state: ChaserState, first: nat, second: nat)
    ensures
        state.skip(first + second) == state.skip(first).skip(second),
    decreases second,
{
    if second > 0 {
        lemma_skip_split(state, first, (second - 1) as nat);
    }
}

proof fn lemma_run_split(state: ChaserState, board: Board, first: nat, second: nat)
    ensures
        run(state, board, first + second) == run(
            state.skip(first),
            run(state, board, first),
            second,
        ),
    decreases second,
{
    if second > 0 {
        lemma_run_split(state, board, first, (second - 1) as nat);
        lemma_skip_split(state, first, (second - 1) as nat);
    }
}

proof fn lemma_clear_then_light(word: u32, mask: u32)
    by (bit_vector)
    requires
        mask & 0xF000u32 == mask,
    ensures
        ((word & !(0xF000u32 & 0xF000u32)) | (mask & 0xF000u32)) & 0xF000u32 == mask,
        ((word & !(0xF000u32 & 0xF000u32)) | (mask & 0xF000u32)) & !0xF000u32 == word & !0xF000u32,
        (word & !(0xF000u32 & 0xF000u32)) | (mask & 0xF000u32) == (word & !0xF000u32) | mask,
        (word & !(0xF000u32 & 0xF000u32)) & 0xF000u32 == 0,
{
}

proof fn lemma_masks_are_leds()
    ensures
        forall|i: int| 0 <= i < 4 ==> #[trigger] led_sequence()[i] & ALL_LEDS == led_sequence()[i],
{
    assert(0x1000u32 & 0xF000u32 == 0x1000u32 && 0x2000u32 & 0xF000u32 == 0x2000u32 && 0x4000u32
        & 0xF000u32 == 0x4000u32 && 0x8000u32 & 0xF000u32 == 0x8000u32) by (bit_vector);
}

/// The positions of the circle follow one another with period four: from any
/// position, four moves lead back to it, and no fewer do.
pub proof fn law_index_period(index: usize)
    requires
        index < LED_COUNT,
    ensures
        next_index(next_index(next_index(next_index(index)))) == index,
        next_index(index) != index,
        next_index(next_index(index)) != index,
        next_index(next_index(next_index(index))) != index,
        prev_index(next_index(index) as int) == index,
{
}

/// The firmware starts by switching the clock on, and only then makes the
/// LED pins outputs; neither touches the output data register. After these
/// two actions the pattern begins, with the first LED to come.
pub proof fn law_startup_order(board: Board)
    ensures
        ChaserState::initial().action() == Action::EnableClock,
        ChaserState::initial().skip(1).action() == Action::ConfigurePins,
        ChaserState::initial().skip(2) == (ChaserState { phase: Phase::Clear, index: 0 }),
        run(ChaserState::initial(), board, 1) == (Board {
            clock_enable: enable_gpiod_clock(board.clock_enable),
            ..board
        }),
        run(ChaserState::initial(), board, 2) == (Board {
            clock_enable: enable_gpiod_clock(board.clock_enable),
            pin_mode: configure_led_pins(board.pin_mode),
            output_data: board.output_data,
        }),
{
    let start = ChaserState::initial();
    assert(start.skip(0) == start);
    assert(start.skip(1) == start.next());
    assert(start.skip(2) == start.skip(1).next());
    assert(run(start, board, 0) == board);
    assert(run(start, board, 1) == board.after(start.action()));
    assert(run(start, board, 2) == run(start, board, 1).after(start.skip(1).action()));
}

/// One step of the pattern, from any board: clearing, lighting and pausing
/// leave exactly the LED of the current position lit, change no other bit of
/// any register, and move the position on by one. From the lighting on, the
/// pattern is steady.
pub proof fn law_step_lights_one(state: ChaserState, board: Board)
    requires
        state.wf(),
        state.phase == Phase::Clear,
    ensures
        run(state, board, 1).output_data & ALL_LEDS == 0,
        run(state, board, 2) == run(state, board, 3),
        run(state, board, 3) == (Board {
            output_data: (board.output_data & !ALL_LEDS) | led_sequence()[state.index],
            ..board
        }),
        run(state, board, 3).output_data & ALL_LEDS == led_sequence()[state.index],
        run(state, board, 3).output_data & !ALL_LEDS == board.output_data & !ALL_LEDS,
        lit_count(run(state, board, 3).output_data) == 1,
        state.skip(3) == (ChaserState { phase: Phase::Clear, index: (state.index + 1) % 4 }),
        steady(state.skip(2), run(state, board, 2)),
        steady(state.skip(3), run(state, board, 3)),
{
    assert(state.skip(0) == state);
    assert(state.skip(1) == state.next());
    assert(state.skip(2) == state.skip(1).next());
    assert(state.skip(3) == state.skip(2).next());
    assert(run(state, board, 0) == board);
    assert(run(state, board, 1) == board.after(state.action()));
    assert(run(state, board, 2) == run(state, board, 1).after(state.skip(1).action()));
    assert(run(state, board, 3) == run(state, board, 2).after(state.skip(2).action()));
    let mask = led_sequence()[state.index];
    lemma_masks_are_leds();
    lemma_clear_then_light(board.output_data, mask);
    law_one_lit_is_one_mask(run(state, board, 3).output_data);
}

/// While the pattern is steady, exactly one of the four LEDs is lit.
pub proof fn law_steady_one_led(state: ChaserState, board: Board)
    requires
        steady(state, board),
    ensures
        lit_count(board.output_data) == 1,
{
    law_one_lit_is_one_mask(board.output_data);
}

/// The steady state lasts: a pause leaves it as it is, and from the moment
/// before the LEDs are cleared the pattern is steady again as soon as the
/// next LED is lit. Only between the clearing and the lighting of one step
/// is no LED lit.
pub proof fn law_steady_lasts(state: ChaserState, board: Board)
    requires
        steady(state, board),
    ensures
        state.phase == Phase::Pause ==> run(state, board, 1) == board && steady(
            state.skip(1),
            run(state, board, 1),
        ),
        state.phase == Phase::Clear ==> lit_count(run(state, board, 1).output_data) == 0 && steady(
            state.skip(2),
            run(state, board, 2),
        ),
{
    assert(state.skip(0) == state);
    assert(state.skip(1) == state.next());
    assert(run(state, board, 0) == board);
    assert(run(state, board, 1) == board.after(state.action()));
    if state.phase == Phase::Clear {
        law_step_lights_one(state, board);
        law_one_lit_is_one_mask(run(state, board, 1).output_data);
    }
}

proof fn lemma_light_from_dark(word: u32, mask: u32)
    by (bit_vector)
    requires
        word & 0xF000u32 == 0,
        mask & 0xF000u32 == mask,
    ensures
        (word | (mask & 0xF000u32)) & 0xF000u32 == mask,
{
}

/// What holds of the sequencer and the registers at every moment once the
/// first LED was lit: the start-up is over, the position is one of the
/// circle, the pattern is steady while the firmware shows it, and no LED is
/// lit in the moment between the clearing and the lighting of a step.
pub open spec fn on_course(state: ChaserState, board: Board) -> bool {
    &&& state.wf()
    &&& state.phase != Phase::EnableClock
    &&& state.phase != Phase::ConfigurePins
    &&& state.showing() ==> steady(state, board)
    &&& state.phase == Phase::Light ==> board.output_data & ALL_LEDS == 0
}

/// Whatever the registers held at the start, from the fourth action on, the
/// one that lights the first LED, the firmware is on course for ever: exactly
/// one LED is lit whenever it shows the pattern, and none in the moment
/// between the clearing and the lighting of a step.
pub proof fn law_one_led_always(board: Board, count: nat)
    requires
        count >= 4,
    ensures
        on_course(ChaserState::initial().skip(count), run(ChaserState::initial(), board, count)),
        ChaserState::initial().skip(count).showing() ==> lit_count(
            run(ChaserState::initial(), board, count).output_data,
        ) == 1,
        !ChaserState::initial().skip(count).showing() ==> lit_count(
            run(ChaserState::initial(), board, count).output_data,
        ) == 0,
    decreases count,
{
    let start = ChaserState::initial();
    let state = start.skip(count);
    let now = run(start, board, count);
    if count == 4 {
        law_startup_order(board);
        law_step_lights_one(start.skip(2), run(start, board, 2));
        lemma_skip_split(start, 2, 2);
        lemma_run_split(start, board, 2, 2);
    } else {
        let before = (count - 1) as nat;
        law_one_led_always(board, before);
        let earlier = start.skip(before);
        let was = run(start, board, before);
        assert(state == earlier.next());
        assert(now == was.after(earlier.action()));
        lemma_masks_are_leds();
        if earlier.phase == Phase::Light {
            lemma_light_from_dark(was.output_data, led_sequence()[earlier.index]);
        } else if earlier.phase == Phase::Clear {
            let word = was.output_data;
            assert((word & !(0xF000u32 & 0xF000u32)) & 0xF000u32 == 0) by (bit_vector);
        }
    }
    law_one_lit_is_one_mask(now.output_data);
}

/// The pattern repeats with period four: four steps on, the sequencer is in
/// the state it was in, and a fifth step leaves the board as the first did.
pub proof fn law_pattern_period(state: ChaserState, board: Board)
    requires
        state.wf(),
        state.phase == Phase::Clear,
    ensures
        state.skip(12) == state,
        run(state, board, 15) == run(state, board, 3),
{
    let s1 = state.skip(3);
    let b1 = run(state, board, 3);
    law_step_lights_one(state, board);
    let s2 = s1.skip(3);
    let b2 = run(s1, b1, 3);
    law_step_lights_one(s1, b1);
    lemma_skip_split(state, 3, 3);
    lemma_run_split(state, board, 3, 3);
    let s3 = s2.skip(3);
    let b3 = run(s2, b2, 3);
    law_step_lights_one(s2, b2);
    lemma_skip_split(state, 6, 3);
    lemma_run_split(state, board, 6, 3);
    let s4 = s3.skip(3);
    let b4 = run(s3, b3, 3);
    law_step_lights_one(s3, b3);
    lemma_skip_split(state, 9, 3);
    lemma_run_split(state, board, 9, 3);
    assert(s4 == state);
    law_step_lights_one(s4, b4);
    lemma_run_split(state, board, 12, 3);
}

} // verus!
