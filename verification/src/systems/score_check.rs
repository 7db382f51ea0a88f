//! Score display: while the run is being won, the score text shows the
//! elapsed time in tenths of a second, zero-padded to eight digits
//! (`Score: 00000023` at 2.345 s).  After a loss the score text keeps its
//! last value; the pulsing of the lose banner is left to the renderer.

use vstd::prelude::*;
use vstd::string::StringExecFns;

use crate::ferris::UiText;
use crate::world::{Entity, World};

verus! {

/// Rewrites the score text each tick while the run is being won.
pub struct ScoreCheckSystem;

/// The decimal digit character for `d` (0 to 9).
pub open spec fn digit_char(d: int) -> char {
    if d == 0 {
        '0'
    } else if d == 1 {
        '1'
    } else if d == 2 {
        '2'
    } else if d == 3 {
        '3'
    } else if d == 4 {
        '4'
    } else if d == 5 {
        '5'
    } else if d == 6 {
        '6'
    } else if d == 7 {
        '7'
    } else if d == 8 {
        '8'
    } else {
        '9'
    }
}

/// `k` zero characters (none when `k` is not positive).
pub open spec fn zero_pad(k: int) -> Seq<char> {
    Seq::new(if k > 0 { k as nat } else { 0 }, |i: int| '0')
}

/// The decimal digits of `n`, left-padded with zeros to at least `width`
/// characters; numbers with more digits than `width` keep all their digits.
pub open spec fn padded_digits(n: nat, width: nat) -> Seq<char>
    decreases n,
{
    if n < 10 {
        zero_pad(width - 1) + seq![digit_char(n as int)]
    } else {
        padded_digits(n / 10, if width > 0 { (width - 1) as nat } else { 0 })
            + seq![digit_char((n % 10) as int)]
    }
}

/// The score line for an elapsed time in milliseconds: `Score: ` followed by
/// the elapsed tenths of a second, zero-padded to eight digits.
pub open spec fn score_line(elapsed_ms: nat) -> Seq<char> {
    seq!['S', 'c', 'o', 'r', 'e', ':', ' '] + padded_digits(elapsed_ms / 100, 8)
}

/// Whether the score display rewrites this entity's text: it must be the
/// score text entity and carry a UI text.
pub open spec fn score_display(e: Entity) -> bool {
    e.score_text is Some && e.ui_text is Some
}

/// How one entity relates to its pre-tick value once the score display ran:
/// while the run is being won, a score-display entity keeps everything but
/// its text, which becomes the score line; any other entity, or any entity
/// once the run is lost, is exactly kept.
pub open spec fn score_applied(e0: Entity, e1: Entity, winning: bool, elapsed_ms: nat) -> bool {
    if winning && score_display(e0) {
        &&& e1.ui_text is Some
        &&& e1.ui_text->Some_0.text@ == score_line(elapsed_ms)
        &&& e1.rustacean == e0.rustacean
        &&& e1.bad_touch == e0.bad_touch
        &&& e1.score_text == e0.score_text
        &&& e1.transform == e0.transform
        &&& e1.mass == e0.mass
        &&& e1.parallax == e0.parallax
    } else {
        e1 == e0
    }
}

/// The one-character string for the decimal digit `d`.
fn digit_str(d: u64) -> (r: &'static str)
    requires
        d < 10,
    ensures
        r@ == seq![digit_char(d as int)],
{
    proof {
        reveal_strlit("0");
        reveal_strlit("1");
        reveal_strlit("2");
        reveal_strlit("3");
        reveal_strlit("4");
        reveal_strlit("5");
        reveal_strlit("6");
        reveal_strlit("7");
        reveal_strlit("8");
        reveal_strlit("9");
        assert("0"@ =~= seq![digit_char(0)]);
        assert("1"@ =~= seq![digit_char(1)]);
        assert("2"@ =~= seq![digit_char(2)]);
        assert("3"@ =~= seq![digit_char(3)]);
        assert("4"@ =~= seq![digit_char(4)]);
        assert("5"@ =~= seq![digit_char(5)]);
        assert("6"@ =~= seq![digit_char(6)]);
        assert("7"@ =~= seq![digit_char(7)]);
        assert("8"@ =~= seq![digit_char(8)]);
        assert("9"@ =~= seq![digit_char(9)]);
    }
    match d {
        0 => "0",
        1 => "1",
        2 => "2",
        3 => "3",
        4 => "4",
        5 => "5",
        6 => "6",
        7 => "7",
        8 => "8",
        _ => "9",
    }
}

/// A string of `k` zero characters.
fn zeros_string(k: u64) -> (s: String)
    ensures
        s@ == zero_pad(k as int),
{
    let mut s = String::new();
    let mut i: u64 = 0;
    while i < k
        invariant
            i <= k,
            s@ == zero_pad(i as int),
        decreases k - i,
    {
        s.append("0");
        i = i + 1;
        proof {
            reveal_strlit("0");
            assert(zero_pad(i as int - 1) + "0"@ =~= zero_pad(i as int));
        }
    }
    s
}

/// The decimal digits of `v`, zero-padded to at least `width` characters.
fn padded_string(v: u64, width: u64) -> (s: String)
    ensures
        s@ == padded_digits(v as nat, width as nat),
    decreases v,
{
    let rest = if width > 0 { width - 1 } else { 0 };
    if v < 10 {
        let mut s = zeros_string(rest);
        proof {
            assert(zero_pad(rest as int) =~= zero_pad(width as int - 1));
        }
        s.append(digit_str(v));
        s
    } else {
        let mut s = padded_string(v / 10, rest);
        s.append(digit_str(v % 10));
        s
    }
}

/// The full score line for an elapsed time in milliseconds.
pub fn format_score(elapsed_ms: u64) -> (s: String)
    ensures
        s@ == score_line(elapsed_ms as nat),
{
    let mut s = String::from_str("Score: ");
    proof {
        reveal_strlit("Score: ");
        assert("Score: "@ =~= seq!['S', 'c', 'o', 'r', 'e', ':', ' ']);
    }
    let digits = padded_string(elapsed_ms / 100, 8);
    s.append(digits.as_str());
    s
}

impl ScoreCheckSystem {
    /// While `winning` is `true`, every score-display entity's text becomes
    /// the current score line and everything else about it is kept; all other
    /// entities, the scoreboard, and (once the run is lost) the whole world
    /// are left untouched.
    pub fn run(&mut self, world: &mut World, elapsed_ms: u64)
        ensures
            final(world).scoreboard == old(world).scoreboard,
            final(world).entities@.len() == old(world).entities@.len(),
            forall|i: int| 0 <= i < old(world).entities@.len() ==> score_applied(
                old(world).entities@[i],
                #[trigger] final(world).entities@[i],
                old(world).scoreboard.winning,
                elapsed_ms as nat,
            ),
            !old(world).scoreboard.winning ==> *final(world) == *old(world),
    {
        if !world.scoreboard.winning {
            return;
        }
        let n = world.entities.len();
        let mut i: usize = 0;
        while i < n
            invariant
                i <= n,
                n == world.entities@.len(),
                world.entities@.len() == old(world).entities@.len(),
                world.scoreboard == old(world).scoreboard,
                old(world).scoreboard.winning,
                forall|j: int| 0 <= j < i ==> score_applied(
                    old(world).entities@[j],
                    #[trigger] world.entities@[j],
                    true,
                    elapsed_ms as nat,
                ),
                forall|j: int| i <= j < n ==> world.entities@[j] == old(world).entities@[j],
            decreases n - i,
        {
            if world.entities[i].score_text.is_some() && world.entities[i].ui_text.is_some() {
                let text = format_score(elapsed_ms);
                let e = &mut world.entities[i];
                e.ui_text = Some(UiText { text });
            }
            i = i + 1;
        }
    }
}

} // verus!
