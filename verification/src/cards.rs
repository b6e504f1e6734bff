//! Card identity: per-card static attributes (rank, suit, colour, sheet
//! index) derived deterministically from the deal index, plus the marker
//! components that link a rendered card to its draggable proxy.

use vstd::prelude::*;
use crate::world::Entity;

verus! {

/// The four suits, in sprite-sheet row order.
#[derive(Clone, Copy, Debug, PartialEq, Eq, Structural)]
pub enum CardSuit {
    Hearts,
    Spades,
    Diamonds,
    Clubs,
}

/// A card's colour, determined by its suit.
#[derive(Clone, Copy, Debug, PartialEq, Eq, Structural)]
pub enum CardColor {
    Red,
    Black,
}

/// A deal index names a real card exactly when it lies in `0..=51`.
pub open spec fn index_in_deck(i: int) -> bool {
    0 <= i <= 51
}

/// Suit of deal index `i`: hearts for 0-12, spades for 13-25, diamonds for
/// 26-39, clubs for 40-51; any other index falls back to hearts.
pub open spec fn suit_of_index(i: int) -> CardSuit {
    if 0 <= i <= 12 {
        CardSuit::Hearts
    } else if 13 <= i <= 25 {
        CardSuit::Spades
    } else if 26 <= i <= 39 {
        CardSuit::Diamonds
    } else if 40 <= i <= 51 {
        CardSuit::Clubs
    } else {
        CardSuit::Hearts
    }
}

/// Hearts and diamonds are red; spades and clubs are black.
pub open spec fn color_of_suit(s: CardSuit) -> CardColor {
    match s {
        CardSuit::Hearts => CardColor::Red,
        CardSuit::Diamonds => CardColor::Red,
        CardSuit::Spades => CardColor::Black,
        CardSuit::Clubs => CardColor::Black,
    }
}

/// Colour of deal index `i`: the suit's colour in range, black for the
/// out-of-range fallback identity.
pub open spec fn color_of_index(i: int) -> CardColor {
    if index_in_deck(i) {
        color_of_suit(suit_of_index(i))
    } else {
        CardColor::Black
    }
}

/// Immutable identity of one card: 1-based ordinal, rank 1-13, suit and
/// derived colour.
#[derive(Clone, Copy, Debug, PartialEq, Eq, Structural)]
pub struct CardVisual {
    pub index: usize,
    pub number: usize,
    pub suit: CardSuit,
    pub color: CardColor,
}

/// The full identity derived from deal index `i`.
pub open spec fn card_visual_of(i: int) -> CardVisual {
    CardVisual {
        index: (i + 1) as usize,
        number: (i % 13 + 1) as usize,
        suit: suit_of_index(i),
        color: color_of_index(i),
    }
}

/// Derives a card identity from its deal index. An index outside `0..=51` is
/// a construction error: the card still gets a usable fallback identity
/// (hearts, black) rather than aborting the deal.
pub fn card_from_index(i: usize) -> (c: CardVisual)
    requires
        i < usize::MAX,
    ensures
        c == card_visual_of(i as int),
        index_in_deck(i as int) ==> c.color == color_of_suit(c.suit),
{
    let suit: CardSuit;
    let color: CardColor;
    if i <= 12 {
        suit = CardSuit::Hearts;
        color = CardColor::Red;
    } else if i <= 25 {
        suit = CardSuit::Spades;
        color = CardColor::Black;
    } else if i <= 39 {
        suit = CardSuit::Diamonds;
        color = CardColor::Red;
    } else if i <= 51 {
        suit = CardSuit::Clubs;
        color = CardColor::Black;
    } else {
        suit = CardSuit::Hearts;
        color = CardColor::Black;
    }
    CardVisual { index: i + 1, number: (i % 13) + 1, suit, color }
}

/// Component of a proxy entity: the interaction hit-box that owns a card's
/// authoritative position. `card` links back to the rendered visual entity.
#[derive(Clone, Copy, Debug, Default)]
pub struct CardDraggable {
    pub card: Option<Entity>,
}

/// Marker component of a static board slot entity.
#[derive(Clone, Copy, Debug)]
pub struct CardSlot;

/// Marker component of a card's front-face presentation entity.
#[derive(Clone, Copy, Debug)]
pub struct CardFront;

/// Marker component of a card's back-face presentation entity.
#[derive(Clone, Copy, Debug)]
pub struct CardBack;

/// Registry of the card identities created at deal time.
#[derive(Clone, Debug, Default)]
pub struct Cards {
    pub cards: Vec<CardVisual>,
}

/// Debug cursor naming the currently inspected card.
#[derive(Clone, Copy, Debug, PartialEq, Eq, Structural)]
pub struct CurrentCard(pub usize);

} // verus!
