//! Question-type codes and the selection of codes from toggles.

use vstd::prelude::*;

verus! {

/// Number of question-type codes, the aggregate one included.
pub const CODE_COUNT: usize = 9;

/// A question category, or `M`, the aggregate of the memory-verse categories
/// `Q`, `R` and `V`.
///
/// The variants are declared in the fixed order in which codes are handed to
/// the analysis engine. `M` is handed to the engine as a literal code like the
/// other eight; the library attaches no further meaning to it.
#[derive(Clone, Copy, Debug, PartialEq, Eq, Structural)]
pub enum QuestionTypeCode {
    A,
    G,
    I,
    Q,
    R,
    S,
    X,
    V,
    M,
}

impl QuestionTypeCode {
    /// Place of the code in the fixed order, from 0 to 8.
    pub open spec fn index(self) -> int {
        match self {
            QuestionTypeCode::A => 0,
            QuestionTypeCode::G => 1,
            QuestionTypeCode::I => 2,
            QuestionTypeCode::Q => 3,
            QuestionTypeCode::R => 4,
            QuestionTypeCode::S => 5,
            QuestionTypeCode::X => 6,
            QuestionTypeCode::V => 7,
            QuestionTypeCode::M => 8,
        }
    }

    /// The code at place `i` of the fixed order (`M` for every `i` above 7).
    pub open spec fn at(i: int) -> QuestionTypeCode {
        if i <= 0 {
            QuestionTypeCode::A
        } else if i == 1 {
            QuestionTypeCode::G
        } else if i == 2 {
            QuestionTypeCode::I
        } else if i == 3 {
            QuestionTypeCode::Q
        } else if i == 4 {
            QuestionTypeCode::R
        } else if i == 5 {
            QuestionTypeCode::S
        } else if i == 6 {
            QuestionTypeCode::X
        } else if i == 7 {
            QuestionTypeCode::V
        } else {
            QuestionTypeCode::M
        }
    }

    /// The character that stands for the code.
    pub open spec fn letter(self) -> char {
        match self {
            QuestionTypeCode::A => 'A',
            QuestionTypeCode::G => 'G',
            QuestionTypeCode::I => 'I',
            QuestionTypeCode::Q => 'Q',
            QuestionTypeCode::R => 'R',
            QuestionTypeCode::S => 'S',
            QuestionTypeCode::X => 'X',
            QuestionTypeCode::V => 'V',
            QuestionTypeCode::M => 'M',
        }
    }

    /// Place of the code in the fixed order.
    pub fn position(self) -> (i: usize)
        ensures
            i == self.index(),
            i < CODE_COUNT,
    {
        match self {
            QuestionTypeCode::A => 0,
            QuestionTypeCode::G => 1,
            QuestionTypeCode::I => 2,
            QuestionTypeCode::Q => 3,
            QuestionTypeCode::R => 4,
            QuestionTypeCode::S => 5,
            QuestionTypeCode::X => 6,
            QuestionTypeCode::V => 7,
            QuestionTypeCode::M => 8,
        }
    }

    /// The code at place `i`, if `i` is one of the nine places.
    pub fn from_position(i: usize) -> (code: Option<QuestionTypeCode>)
        ensures
            code == (if i < CODE_COUNT {
                Some(QuestionTypeCode::at(i as int))
            } else {
                None
            }),
    {
        match i {
            0 => Some(QuestionTypeCode::A),
            1 => Some(QuestionTypeCode::G),
            2 => Some(QuestionTypeCode::I),
            3 => Some(QuestionTypeCode::Q),
            4 => Some(QuestionTypeCode::R),
            5 => Some(QuestionTypeCode::S),
            6 => Some(QuestionTypeCode::X),
            7 => Some(QuestionTypeCode::V),
            8 => Some(QuestionTypeCode::M),
            _ => None,
        }
    }

    /// The character that stands for the code.
    pub fn symbol(self) -> (c: char)
        ensures
            c == self.letter(),
    {
        match self {
            QuestionTypeCode::A => 'A',
            QuestionTypeCode::G => 'G',
            QuestionTypeCode::I => 'I',
            QuestionTypeCode::Q => 'Q',
            QuestionTypeCode::R => 'R',
            QuestionTypeCode::S => 'S',
            QuestionTypeCode::X => 'X',
            QuestionTypeCode::V => 'V',
            QuestionTypeCode::M => 'M',
        }
    }
}

/// One toggle per question-type code, in the fixed order of the codes.
#[derive(Clone, Copy, Debug, PartialEq, Eq)]
pub struct TypeToggles {
    pub flags: [bool; 9],
}

impl View for TypeToggles {
    type V = Seq<bool>;

    open spec fn view(&self) -> Seq<bool> {
        self.flags@
    }
}

impl TypeToggles {
    /// Every code switched on.
    pub fn all() -> (toggles: TypeToggles)
        ensures
            forall|i: int| 0 <= i < 9 ==> toggles@[i],
    {
        TypeToggles { flags: [true, true, true, true, true, true, true, true, true] }
    }

    /// Every code switched off.
    pub fn none() -> (toggles: TypeToggles)
        ensures
            forall|i: int| 0 <= i < 9 ==> !toggles@[i],
    {
        TypeToggles { flags: [false, false, false, false, false, false, false, false, false] }
    }

    /// Whether the toggle of `code` is on.
    pub fn is_on(&self, code: QuestionTypeCode) -> (on: bool)
        ensures
            on == self@[code.index()],
    {
        self.flags[code.position()]
    }
}

/// The codes among the first `n` places whose toggle is on, in place order.
pub open spec fn chosen_upto(toggles: Seq<bool>, n: int) -> Seq<QuestionTypeCode>
    decreases n,
{
    if n <= 0 {
        Seq::empty()
    } else if toggles[n - 1] {
        chosen_upto(toggles, n - 1).push(QuestionTypeCode::at(n - 1))
    } else {
        chosen_upto(toggles, n - 1)
    }
}

/// The codes whose toggle is on, in the fixed order of the codes.
pub open spec fn chosen(toggles: Seq<bool>) -> Seq<QuestionTypeCode> {
    chosen_upto(toggles, 9)
}

/// Whether the places of the codes in `codes` rise strictly from start to end.
pub open spec fn in_fixed_order(codes: Seq<QuestionTypeCode>) -> bool {
    forall|i: int, j: int| 0 <= i < j < codes.len() ==> codes[i].index() < codes[j].index()
}

/// The characters of `codes`, one for one.
pub open spec fn letters_of(codes: Seq<QuestionTypeCode>) -> Seq<char> {
    codes.map_values(|c: QuestionTypeCode| c.letter())
}

/// Chooses the codes whose toggle is on, in the fixed order of the codes.
pub fn select_types(toggles: &TypeToggles) -> (codes: Vec<QuestionTypeCode>)
    ensures
        codes@ == chosen(toggles@),
{
    let mut codes: Vec<QuestionTypeCode> = Vec::new();
    let mut i: usize = 0;
    while i < 9
        invariant
            i <= 9,
            codes@ == chosen_upto(toggles@, i as int),
        decreases 9 - i,
    {
        if toggles.flags[i] {
            match QuestionTypeCode::from_position(i) {
                Some(code) => codes.push(code),
                None => {},
            }
        }
        i += 1;
    }
    codes
}

/// The characters that stand for `codes`, in the same order.
pub fn type_letters(codes: &Vec<QuestionTypeCode>) -> (letters: Vec<char>)
    ensures
        letters@ == letters_of(codes@),
{
    let mut letters: Vec<char> = Vec::new();
    let mut i: usize = 0;
    while i < codes.len()
        invariant
            i <= codes.len(),
            letters@ == letters_of(codes@.take(i as int)),
        decreases codes.len() - i,
    {
        letters.push(codes[i].symbol());
        proof {
            assert(codes@.take(i + 1) == codes@.take(i as int).push(codes@[i as int]));
            assert(letters@ == letters_of(codes@.take(i + 1)));
        }
        i += 1;
    }
    proof {
        assert(codes@.take(codes.len() as int) == codes@);
    }
    letters
}

/// Every code sits at the place that `at` gives for its place.
pub proof fn places_and_codes_correspond()
    ensures
        forall|c: QuestionTypeCode| 0 <= #[trigger] c.index() < 9 && QuestionTypeCode::at(c.index()) == c,
        forall|i: int| 0 <= i < 9 ==> #[trigger] QuestionTypeCode::at(i).index() == i,
{
}

proof fn lemma_chosen_upto(toggles: Seq<bool>, n: int)
    requires
        0 <= n <= 9,
    ensures
        in_fixed_order(chosen_upto(toggles, n)),
        chosen_upto(toggles, n).len() <= n,
        forall|c: QuestionTypeCode|
            chosen_upto(toggles, n).contains(c) <==> (c.index() < n && toggles[c.index()]),
    decreases n,
{
    if n > 0 {
        lemma_chosen_upto(toggles, n - 1);
        let before = chosen_upto(toggles, n - 1);
        let last = QuestionTypeCode::at(n - 1);
        if toggles[n - 1] {
            let now = before.push(last);
            assert forall|i: int, j: int| 0 <= i < j < now.len() implies now[i].index()
                < now[j].index() by {
                assert(before.contains(now[i]));
            }
            assert forall|c: QuestionTypeCode|
                now.contains(c) <==> (c.index() < n && toggles[c.index()]) by {
                if now.contains(c) {
                    let k = choose|k: int| 0 <= k < now.len() && now[k] == c;
                    if k < before.len() {
                        assert(before.contains(c));
                    }
                }
                if c.index() < n && toggles[c.index()] {
                    if c.index() == n - 1 {
                        assert(now[before.len() as int] == c);
                    } else {
                        assert(before.contains(c));
                        let k = choose|k: int| 0 <= k < before.len() && before[k] == c;
                        assert(now[k] == c);
                    }
                }
            }
        } else {
            assert forall|c: QuestionTypeCode|
                before.contains(c) <==> (c.index() < n && toggles[c.index()]) by {
            }
        }
    } else {
        assert forall|c: QuestionTypeCode| !chosen_upto(toggles, n).contains(c) by {
        }
    }
}

proof fn lemma_only_one_ordering(toggles: Seq<bool>, n: int, codes: Seq<QuestionTypeCode>)
    requires
        0 <= n <= 9,
        in_fixed_order(codes),
        forall|c: QuestionTypeCode| codes.contains(c) <==> (c.index() < n && toggles[c.index()]),
    ensures
        codes == chosen_upto(toggles, n),
    decreases n,
{
    if n == 0 {
        if codes.len() > 0 {
            assert(codes.contains(codes[0]));
        }
        assert(codes =~= chosen_upto(toggles, n));
    } else if toggles[n - 1] {
        let last = QuestionTypeCode::at(n - 1);
        assert(last.index() == n - 1);
        assert(codes.contains(last));
        let k = choose|k: int| 0 <= k < codes.len() && codes[k] == last;
        if k < codes.len() - 1 {
            assert(codes.contains(codes[k + 1]));
        }
        let front = codes.drop_last();
        assert forall|c: QuestionTypeCode|
            front.contains(c) <==> (c.index() < n - 1 && toggles[c.index()]) by {
            if front.contains(c) {
                let i = choose|i: int| 0 <= i < front.len() && front[i] == c;
                assert(codes[i] == c);
                assert(codes.contains(c));
            }
            if c.index() < n - 1 && toggles[c.index()] {
                assert(codes.contains(c));
                let j = choose|j: int| 0 <= j < codes.len() && codes[j] == c;
                assert(front[j] == c);
            }
        }
        lemma_only_one_ordering(toggles, n - 1, front);
        assert(codes =~= front.push(last));
    } else {
        assert forall|c: QuestionTypeCode|
            codes.contains(c) <==> (c.index() < n - 1 && toggles[c.index()]) by {
        }
        lemma_only_one_ordering(toggles, n - 1, codes);
    }
}

/// A code is selected exactly when its toggle is on.
pub proof fn selection_holds_the_toggled_codes(toggles: Seq<bool>)
    ensures
        forall|c: QuestionTypeCode| chosen(toggles).contains(c) <==> toggles[c.index()],
        chosen(toggles).len() <= 9,
{
    lemma_chosen_upto(toggles, 9);
}

/// The selected codes stand in the fixed order of the codes, so none occurs
/// twice.
pub proof fn selection_keeps_the_fixed_order(toggles: Seq<bool>)
    ensures
        in_fixed_order(chosen(toggles)),
        chosen(toggles).no_duplicates(),
{
    lemma_chosen_upto(toggles, 9);
    let codes = chosen(toggles);
    assert forall|i: int, j: int| 0 <= i < codes.len() && 0 <= j < codes.len() && i != j implies codes[i]
        != codes[j] by {
        if i < j {
            assert(codes[i].index() < codes[j].index());
        } else {
            assert(codes[j].index() < codes[i].index());
        }
    }
}

/// A set of toggles has one selection only: a sequence of codes in the fixed
/// order that holds exactly the codes whose toggle is on is the selection.
pub proof fn selection_is_the_only_ordering(toggles: Seq<bool>, codes: Seq<QuestionTypeCode>)
    requires
        in_fixed_order(codes),
        forall|c: QuestionTypeCode| codes.contains(c) <==> toggles[c.index()],
    ensures
        codes == chosen(toggles),
{
    lemma_only_one_ordering(toggles, 9, codes);
}

/// Toggles that give the same selection agree at each of the nine places.
pub proof fn selection_tells_toggles_apart(first: Seq<bool>, second: Seq<bool>)
    requires
        chosen(first) == chosen(second),
    ensures
        forall|i: int| 0 <= i < 9 ==> first[i] == second[i],
{
    selection_holds_the_toggled_codes(first);
    selection_holds_the_toggled_codes(second);
    assert forall|i: int| 0 <= i < 9 implies first[i] == second[i] by {
        let c = QuestionTypeCode::at(i);
        assert(c.index() == i);
        assert(chosen(first).contains(c) <==> first[i]);
        assert(chosen(second).contains(c) <==> second[i]);
    }
}

} // verus!
