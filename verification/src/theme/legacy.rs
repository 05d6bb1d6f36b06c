//! The legacy theme description, as its file gives it.

use vstd::prelude::*;
use vstd::hash_map::StringHashMap;
use crate::theme::color::Color;

verus! {

/// Background, foreground and border of one kind of element in one state.
#[derive(Debug, Clone, Copy, PartialEq, Eq)]
pub struct ContainerColors {
    pub background: Color,
    pub foreground: Color,
    pub border: Color,
}

/// The colours of one kind of element in each of its states.
#[derive(Debug, Clone, Copy, PartialEq, Eq)]
pub struct StyleSet {
    pub default: ContainerColors,
    pub hovered: ContainerColors,
    pub pressed: ContainerColors,
    pub active: ContainerColors,
    pub disabled: ContainerColors,
    pub inverted: ContainerColors,
}

/// The colours of one depth of the interface, by kind of element.
#[derive(Debug, Clone, Copy, PartialEq, Eq)]
pub struct Layer {
    pub base: StyleSet,
    pub variant: StyleSet,
    pub on: StyleSet,
    pub accent: StyleSet,
    pub positive: StyleSet,
    pub warning: StyleSet,
    pub negative: StyleSet,
}

/// The colours that mark one participant of a shared session.
#[derive(Debug, Clone, Copy, PartialEq, Eq)]
pub struct PlayerColors {
    pub selection: Color,
    pub cursor: Color,
}

/// A drop shadow.
#[derive(Debug, Clone, PartialEq, Eq)]
pub struct Shadow {
    pub blur: u8,
    pub color: Color,
    pub offset: Vec<u8>,
}

/// The number of participants that a theme can give colours to. A key of the
/// `players` object of a theme file is a number below this.
pub const PLAYER_SLOTS: usize = 8;

/// What became of the entries of a `players` object: the colours of all
/// entries in the order of the file when every key is a player slot, else
/// the first key that is none.
pub open spec fn players_of(entries: Seq<(usize, PlayerColors)>) -> Result<
    Seq<PlayerColors>,
    usize,
>
    decreases entries.len(),
{
    if entries.len() == 0 {
        Ok(Seq::empty())
    } else {
        match players_of(entries.drop_last()) {
            Ok(players) => if entries.last().0 < PLAYER_SLOTS {
                Ok(players.push(entries.last().1))
            } else {
                Err(entries.last().0)
            },
            Err(key) => Err(key),
        }
    }
}

/// Takes one entry of a `players` object into `players`: the colours are
/// appended when the key is a player slot, and the key comes back when it is
/// none. The key decides nothing else; colours stand in the order in which
/// their entries are taken.
pub fn admit_player(players: &mut Vec<PlayerColors>, key: usize, colors: PlayerColors) -> (admitted:
    Result<(), usize>)
    ensures
        key < PLAYER_SLOTS ==> admitted is Ok && final(players)@ == old(players)@.push(colors),
        key >= PLAYER_SLOTS ==> admitted == Err::<(), usize>(key) && final(players)@ == old(
            players,
        )@,
{
    if key < PLAYER_SLOTS {
        players.push(colors);
        Ok(())
    } else {
        Err(key)
    }
}

/// Reads the `players` object of a theme file from its entries, in the order
/// of the file. Fails with the first key that is not a player slot.
pub fn deserialize_player_colors(entries: &Vec<(usize, PlayerColors)>) -> (read: Result<
    Vec<PlayerColors>,
    usize,
>)
    ensures
        match players_of(entries@) {
            Ok(players) => read matches Ok(taken) && taken@ == players,
            Err(key) => read == Err::<Vec<PlayerColors>, usize>(key),
        },
{
    let mut players: Vec<PlayerColors> = Vec::new();
    let mut i: usize = 0;
    while i < entries.len()
        invariant
            i <= entries.len(),
            players_of(entries@.take(i as int)) == Ok::<Seq<PlayerColors>, usize>(players@),
        decreases entries.len() - i,
    {
        let key: usize = entries[i].0;
        let colors = entries[i].1;
        proof {
            assert(entries@.take(i + 1).drop_last() =~= entries@.take(i as int));
        }
        match admit_player(&mut players, key, colors) {
            Ok(_) => {},
            Err(key) => {
                proof {
                    lemma_players_fail_for_good(entries@, i + 1);
                }
                return Err(key);
            },
        }
        i += 1;
    }
    assert(entries@.take(i as int) =~= entries@);
    Ok(players)
}

/// Once a prefix of the entries has failed, the whole fails in the same way.
proof fn lemma_players_fail_for_good(entries: Seq<(usize, PlayerColors)>, n: int)
    requires
        0 <= n <= entries.len(),
        players_of(entries.take(n)) is Err,
    ensures
        players_of(entries) == players_of(entries.take(n)),
    decreases entries.len() - n,
{
    if n < entries.len() {
        assert(entries.take(n + 1).drop_last() =~= entries.take(n));
        lemma_players_fail_for_good(entries, n + 1);
    } else {
        assert(entries.take(n) =~= entries);
    }
}

/// The syntax colours of a legacy theme, by scope name.
pub struct SyntaxColors {
    by_scope: StringHashMap<Color>,
}

impl View for SyntaxColors {
    type V = Map<Seq<char>, Color>;

    closed spec fn view(&self) -> Map<Seq<char>, Color> {
        self.by_scope@
    }
}

/// The colours by scope that the entries of a `syntax` object give, a later
/// entry replacing an earlier one of the same scope.
pub open spec fn syntax_of(entries: Seq<(String, Color)>) -> Map<Seq<char>, Color>
    decreases entries.len(),
{
    if entries.len() == 0 {
        Map::empty()
    } else {
        syntax_of(entries.drop_last()).insert(entries.last().0@, entries.last().1)
    }
}

impl SyntaxColors {
    /// No colours.
    pub fn new() -> (colors: Self)
        ensures
            colors@ == Map::<Seq<char>, Color>::empty(),
    {
        SyntaxColors { by_scope: StringHashMap::new() }
    }

    /// Gives `scope` the colour `color`, in place of any it had.
    pub fn insert(&mut self, scope: String, color: Color)
        ensures
            final(self)@ == old(self)@.insert(scope@, color),
    {
        self.by_scope.insert(scope, color);
    }

    /// The colour of `scope`, if it has one.
    pub fn get(&self, scope: &str) -> (color: Option<Color>)
        ensures
            color == if self@.contains_key(scope@) {
                Some(self@[scope@])
            } else {
                None
            },
    {
        match self.by_scope.get(scope) {
            Some(color) => Some(*color),
            None => None,
        }
    }

    /// The colour of `scope`, or the stand-in for a missing colour.
    pub fn get_or_missing(&self, scope: &str) -> (color: Color)
        ensures
            color == if self@.contains_key(scope@) {
                self@[scope@]
            } else {
                Color::missing()
            },
    {
        match self.get(scope) {
            Some(color) => color,
            None => Color::missing(),
        }
    }
}

/// Reads the `syntax` object of a theme file from its entries, each a scope
/// name with the colour of its `color` field, in the order of the file.
pub fn deserialize_syntax_colors(entries: &Vec<(String, Color)>) -> (read: SyntaxColors)
    ensures
        read@ == syntax_of(entries@),
{
    let mut colors = SyntaxColors::new();
    let mut i: usize = 0;
    while i < entries.len()
        invariant
            i <= entries.len(),
            colors@ == syntax_of(entries@.take(i as int)),
        decreases entries.len() - i,
    {
        let scope: String = entries[i].0.clone();
        let color = entries[i].1;
        proof {
            assert(entries@.take(i + 1).drop_last() =~= entries@.take(i as int));
        }
        colors.insert(scope, color);
        i += 1;
    }
    assert(entries@.take(i as int) =~= entries@);
    colors
}

/// A legacy theme.
pub struct LegacyTheme {
    pub name: String,
    pub is_light: bool,
    pub lowest: Layer,
    pub middle: Layer,
    pub highest: Layer,
    pub popover_shadow: Shadow,
    pub modal_shadow: Shadow,
    pub players: Vec<PlayerColors>,
    pub syntax: SyntaxColors,
}

} // verus!
