//! The symbol table: classifies a (mode, character) pair into a destination
//! symbol descriptor. The lookup is total; characters with no entry fall back
//! to an ordinary text symbol carrying the literal character.
//!
//! A handful of characters (digits and some punctuation) are special-cased
//! ahead of the bulk table because the generic classification would place
//! them wrongly in math mode. The bulk table is split into fixed-size parts,
//! tried in order; each part has a specification function and an executable
//! lookup proved equal to it.

use vstd::prelude::*;
use crate::katex::types::Mode;
use crate::katex::node::{Node, NodeV, Atom, MathOrd, Op, TextOrd, node_view};
use crate::error::ConvertError;
use crate::strings::char_string;

verus! {

/// Font family of a symbol descriptor.
#[derive(Clone, Copy, Debug, PartialEq, Eq, Structural)]
pub enum Font {
    Main,
    Ams,
}

/// Atom class of a symbol: its spacing category in the destination format.
#[derive(Clone, Copy, Debug, PartialEq, Eq, Structural)]
pub enum AtomGroup {
    Bin,
    Close,
    Inner,
    Open,
    Punct,
    Rel,
}

/// Non-atomic symbol category.
#[derive(Clone, Copy, Debug, PartialEq, Eq, Structural)]
pub enum NonAtomGroup {
    AccentToken,
    MathOrd,
    OpToken,
    Spacing,
    TextOrd,
}

/// Rendering category of a symbol: an atom class or a non-atomic category.
#[derive(Clone, Copy, Debug, PartialEq, Eq, Structural)]
pub enum Group {
    Atom(AtomGroup),
    NonAtom(NonAtomGroup),
}

/// A symbol descriptor: what the table knows about one character in one mode.
#[derive(Clone, Copy, Debug, PartialEq, Eq, Structural)]
pub struct Symbol {
    pub mode: Mode,
    pub font: Font,
    pub group: Group,
    pub name: char,
}

/// Characters that generic classification would misplace in math mode; they
/// are forced to ordinary text symbols there.
pub open spec fn is_math_text_char(c: char) -> bool {
    c == '0' || c == '1' || c == '2' || c == '3' || c == '4' || c == '5' || c == '6' || c == '7'
        || c == '8' || c == '9' || c == '/' || c == '@' || c == '.' || c == '"'
}

fn math_text_char(c: char) -> (r: bool)
    ensures
        r == is_math_text_char(c),
{
    c == '0' || c == '1' || c == '2' || c == '3' || c == '4' || c == '5' || c == '6' || c == '7'
        || c == '8' || c == '9' || c == '/' || c == '@' || c == '.' || c == '"'
}

/// One part of the bulk symbol table.
pub open spec fn table_part_0(mode: Mode, name: char) -> Option<Symbol> {
    if mode == Mode::Math && name == '≡' {
        Some(Symbol { mode: Mode::Math, font: Font::Main, group: Group::Atom(AtomGroup::Rel), name: '≡' })
    } else if mode == Mode::Math && name == '≺' {
        Some(Symbol { mode: Mode::Math, font: Font::Main, group: Group::Atom(AtomGroup::Rel), name: '≺' })
    } else if mode == Mode::Math && name == '≻' {
        Some(Symbol { mode: Mode::Math, font: Font::Main, group: Group::Atom(AtomGroup::Rel), name: '≻' })
    } else if mode == Mode::Math && name == '∼' {
        Some(Symbol { mode: Mode::Math, font: Font::Ams, group: Group::Atom(AtomGroup::Rel), name: '∼' })
    } else if mode == Mode::Math && name == '⊥' {
        Some(Symbol { mode: Mode::Math, font: Font::Main, group: Group::NonAtom(NonAtomGroup::TextOrd), name: '⊥' })
    } else if mode == Mode::Math && name == '⪯' {
        Some(Symbol { mode: Mode::Math, font: Font::Main, group: Group::Atom(AtomGroup::Rel), name: '⪯' })
    } else if mode == Mode::Math && name == '⪰' {
        Some(Symbol { mode: Mode::Math, font: Font::Main, group: Group::Atom(AtomGroup::Rel), name: '⪰' })
    } else if mode == Mode::Math && name == '≃' {
        Some(Symbol { mode: Mode::Math, font: Font::Main, group: Group::Atom(AtomGroup::Rel), name: '≃' })
    } else if mode == Mode::Math && name == '∣' {
        Some(Symbol { mode: Mode::Math, font: Font::Main, group: Group::NonAtom(NonAtomGroup::TextOrd), name: '∣' })
    } else if mode == Mode::Math && name == '≪' {
        Some(Symbol { mode: Mode::Math, font: Font::Main, group: Group::Atom(AtomGroup::Rel), name: '≪' })
    } else if mode == Mode::Math && name == '≫' {
        Some(Symbol { mode: Mode::Math, font: Font::Main, group: Group::Atom(AtomGroup::Rel), name: '≫' })
    } else if mode == Mode::Math && name == '≍' {
        Some(Symbol { mode: Mode::Math, font: Font::Main, group: Group::Atom(AtomGroup::Rel), name: '≍' })
    } else if mode == Mode::Math && name == '∥' {
        Some(Symbol { mode: Mode::Math, font: Font::Main, group: Group::NonAtom(NonAtomGroup::TextOrd), name: '∥' })
    } else if mode == Mode::Math && name == '⋈' {
        Some(Symbol { mode: Mode::Math, font: Font::Main, group: Group::Atom(AtomGroup::Rel), name: '⋈' })
    } else if mode == Mode::Math && name == '⌣' {
        Some(Symbol { mode: Mode::Math, font: Font::Ams, group: Group::Atom(AtomGroup::Rel), name: '⌣' })
    } else if mode == Mode::Math && name == '⊑' {
        Some(Symbol { mode: Mode::Math, font: Font::Main, group: Group::Atom(AtomGroup::Rel), name: '⊑' })
    } else if mode == Mode::Math && name == '⊒' {
        Some(Symbol { mode: Mode::Math, font: Font::Main, group: Group::Atom(AtomGroup::Rel), name: '⊒' })
    } else if mode == Mode::Math && name == '≐' {
        Some(Symbol { mode: Mode::Math, font: Font::Main, group: Group::Atom(AtomGroup::Rel), name: '≐' })
    } else if mode == Mode::Math && name == '⌢' {
        Some(Symbol { mode: Mode::Math, font: Font::Ams, group: Group::Atom(AtomGroup::Rel), name: '⌢' })
    } else if mode == Mode::Math && name == '∋' {
        Some(Symbol { mode: Mode::Math, font: Font::Main, group: Group::Atom(AtomGroup::Rel), name: '∋' })
    } else if mode == Mode::Math && name == '∝' {
        Some(Symbol { mode: Mode::Math, font: Font::Ams, group: Group::Atom(AtomGroup::Rel), name: '∝' })
    } else if mode == Mode::Math && name == '⊢' {
        Some(Symbol { mode: Mode::Math, font: Font::Main, group: Group::Atom(AtomGroup::Rel), name: '⊢' })
    } else if mode == Mode::Math && name == '⊣' {
        Some(Symbol { mode: Mode::Math, font: Font::Main, group: Group::Atom(AtomGroup::Rel), name: '⊣' })
    } else if mode == Mode::Math && name == '.' {
        Some(Symbol { mode: Mode::Math, font: Font::Main, group: Group::NonAtom(NonAtomGroup::TextOrd), name: '.' })
    } else if mode == Mode::Math && name == '⋅' {
        Some(Symbol { mode: Mode::Math, font: Font::Main, group: Group::Atom(AtomGroup::Bin), name: '⋅' })
    } else if mode == Mode::Math && name == '#' {
        Some(Symbol { mode: Mode::Math, font: Font::Main, group: Group::NonAtom(NonAtomGroup::TextOrd), name: '#' })
    } else if mode == Mode::Text && name == '#' {
        Some(Symbol { mode: Mode::Text, font: Font::Main, group: Group::NonAtom(NonAtomGroup::TextOrd), name: '#' })
    } else if mode == Mode::Math && name == '&' {
        Some(Symbol { mode: Mode::Math, font: Font::Main, group: Group::Atom(AtomGroup::Bin), name: '&' })
    } else if mode == Mode::Text && name == '&' {
        Some(Symbol { mode: Mode::Text, font: Font::Main, group: Group::NonAtom(NonAtomGroup::TextOrd), name: '&' })
    } else if mode == Mode::Math && name == 'ℵ' {
        Some(Symbol { mode: Mode::Math, font: Font::Main, group: Group::NonAtom(NonAtomGroup::TextOrd), name: 'ℵ' })
    } else if mode == Mode::Math && name == '∀' {
        Some(Symbol { mode: Mode::Math, font: Font::Main, group: Group::NonAtom(NonAtomGroup::TextOrd), name: '∀' })
    } else if mode == Mode::Math && name == 'ℏ' {
        Some(Symbol { mode: Mode::Math, font: Font::Ams, group: Group::NonAtom(NonAtomGroup::TextOrd), name: 'ℏ' })
    } else if mode == Mode::Math && name == '∃' {
        Some(Symbol { mode: Mode::Math, font: Font::Main, group: Group::NonAtom(NonAtomGroup::TextOrd), name: '∃' })
    } else if mode == Mode::Math && name == '∇' {
        Some(Symbol { mode: Mode::Math, font: Font::Main, group: Group::NonAtom(NonAtomGroup::TextOrd), name: '∇' })
    } else if mode == Mode::Math && name == '♭' {
        Some(Symbol { mode: Mode::Math, font: Font::Main, group: Group::NonAtom(NonAtomGroup::TextOrd), name: '♭' })
    } else if mode == Mode::Math && name == 'ℓ' {
        Some(Symbol { mode: Mode::Math, font: Font::Main, group: Group::NonAtom(NonAtomGroup::TextOrd), name: 'ℓ' })
    } else if mode == Mode::Math && name == '♮' {
        Some(Symbol { mode: Mode::Math, font: Font::Main, group: Group::NonAtom(NonAtomGroup::TextOrd), name: '♮' })
    } else if mode == Mode::Math && name == '♣' {
        Some(Symbol { mode: Mode::Math, font: Font::Main, group: Group::NonAtom(NonAtomGroup::TextOrd), name: '♣' })
    } else if mode == Mode::Math && name == '℘' {
        Some(Symbol { mode: Mode::Math, font: Font::Main, group: Group::NonAtom(NonAtomGroup::TextOrd), name: '℘' })
    } else if mode == Mode::Math && name == '♯' {
        Some(Symbol { mode: Mode::Math, font: Font::Main, group: Group::NonAtom(NonAtomGroup::TextOrd), name: '♯' })
    } else if mode == Mode::Math && name == '♢' {
        Some(Symbol { mode: Mode::Math, font: Font::Main, group: Group::NonAtom(NonAtomGroup::TextOrd), name: '♢' })
    } else if mode == Mode::Math && name == 'ℜ' {
        Some(Symbol { mode: Mode::Math, font: Font::Main, group: Group::NonAtom(NonAtomGroup::TextOrd), name: 'ℜ' })
    } else if mode == Mode::Math && name == '♡' {
        Some(Symbol { mode: Mode::Math, font: Font::Main, group: Group::NonAtom(NonAtomGroup::TextOrd), name: '♡' })
    } else if mode == Mode::Math && name == 'ℑ' {
        Some(Symbol { mode: Mode::Math, font: Font::Main, group: Group::NonAtom(NonAtomGroup::TextOrd), name: 'ℑ' })
    } else if mode == Mode::Math && name == '♠' {
        Some(Symbol { mode: Mode::Math, font: Font::Main, group: Group::NonAtom(NonAtomGroup::TextOrd), name: '♠' })
    } else {
        None
    }
}

fn lookup_part_0(mode: Mode, name: char) -> (r: Option<Symbol>)
    ensures
        r == table_part_0(mode, name),
{
    if mode == Mode::Math && name == '≡' {
        return Some(Symbol { mode: Mode::Math, font: Font::Main, group: Group::Atom(AtomGroup::Rel), name: '≡' });
    }
    if mode == Mode::Math && name == '≺' {
        return Some(Symbol { mode: Mode::Math, font: Font::Main, group: Group::Atom(AtomGroup::Rel), name: '≺' });
    }
    if mode == Mode::Math && name == '≻' {
        return Some(Symbol { mode: Mode::Math, font: Font::Main, group: Group::Atom(AtomGroup::Rel), name: '≻' });
    }
    if mode == Mode::Math && name == '∼' {
        return Some(Symbol { mode: Mode::Math, font: Font::Ams, group: Group::Atom(AtomGroup::Rel), name: '∼' });
    }
    if mode == Mode::Math && name == '⊥' {
        return Some(Symbol { mode: Mode::Math, font: Font::Main, group: Group::NonAtom(NonAtomGroup::TextOrd), name: '⊥' });
    }
    if mode == Mode::Math && name == '⪯' {
        return Some(Symbol { mode: Mode::Math, font: Font::Main, group: Group::Atom(AtomGroup::Rel), name: '⪯' });
    }
    if mode == Mode::Math && name == '⪰' {
        return Some(Symbol { mode: Mode::Math, font: Font::Main, group: Group::Atom(AtomGroup::Rel), name: '⪰' });
    }
    if mode == Mode::Math && name == '≃' {
        return Some(Symbol { mode: Mode::Math, font: Font::Main, group: Group::Atom(AtomGroup::Rel), name: '≃' });
    }
    if mode == Mode::Math && name == '∣' {
        return Some(Symbol { mode: Mode::Math, font: Font::Main, group: Group::NonAtom(NonAtomGroup::TextOrd), name: '∣' });
    }
    if mode == Mode::Math && name == '≪' {
        return Some(Symbol { mode: Mode::Math, font: Font::Main, group: Group::Atom(AtomGroup::Rel), name: '≪' });
    }
    if mode == Mode::Math && name == '≫' {
        return Some(Symbol { mode: Mode::Math, font: Font::Main, group: Group::Atom(AtomGroup::Rel), name: '≫' });
    }
    if mode == Mode::Math && name == '≍' {
        return Some(Symbol { mode: Mode::Math, font: Font::Main, group: Group::Atom(AtomGroup::Rel), name: '≍' });
    }
    if mode == Mode::Math && name == '∥' {
        return Some(Symbol { mode: Mode::Math, font: Font::Main, group: Group::NonAtom(NonAtomGroup::TextOrd), name: '∥' });
    }
    if mode == Mode::Math && name == '⋈' {
        return Some(Symbol { mode: Mode::Math, font: Font::Main, group: Group::Atom(AtomGroup::Rel), name: '⋈' });
    }
    if mode == Mode::Math && name == '⌣' {
        return Some(Symbol { mode: Mode::Math, font: Font::Ams, group: Group::Atom(AtomGroup::Rel), name: '⌣' });
    }
    if mode == Mode::Math && name == '⊑' {
        return Some(Symbol { mode: Mode::Math, font: Font::Main, group: Group::Atom(AtomGroup::Rel), name: '⊑' });
    }
    if mode == Mode::Math && name == '⊒' {
        return Some(Symbol { mode: Mode::Math, font: Font::Main, group: Group::Atom(AtomGroup::Rel), name: '⊒' });
    }
    if mode == Mode::Math && name == '≐' {
        return Some(Symbol { mode: Mode::Math, font: Font::Main, group: Group::Atom(AtomGroup::Rel), name: '≐' });
    }
    if mode == Mode::Math && name == '⌢' {
        return Some(Symbol { mode: Mode::Math, font: Font::Ams, group: Group::Atom(AtomGroup::Rel), name: '⌢' });
    }
    if mode == Mode::Math && name == '∋' {
        return Some(Symbol { mode: Mode::Math, font: Font::Main, group: Group::Atom(AtomGroup::Rel), name: '∋' });
    }
    if mode == Mode::Math && name == '∝' {
        return Some(Symbol { mode: Mode::Math, font: Font::Ams, group: Group::Atom(AtomGroup::Rel), name: '∝' });
    }
    if mode == Mode::Math && name == '⊢' {
        return Some(Symbol { mode: Mode::Math, font: Font::Main, group: Group::Atom(AtomGroup::Rel), name: '⊢' });
    }
    if mode == Mode::Math && name == '⊣' {
        return Some(Symbol { mode: Mode::Math, font: Font::Main, group: Group::Atom(AtomGroup::Rel), name: '⊣' });
    }
    if mode == Mode::Math && name == '.' {
        return Some(Symbol { mode: Mode::Math, font: Font::Main, group: Group::NonAtom(NonAtomGroup::TextOrd), name: '.' });
    }
    if mode == Mode::Math && name == '⋅' {
        return Some(Symbol { mode: Mode::Math, font: Font::Main, group: Group::Atom(AtomGroup::Bin), name: '⋅' });
    }
    if mode == Mode::Math && name == '#' {
        return Some(Symbol { mode: Mode::Math, font: Font::Main, group: Group::NonAtom(NonAtomGroup::TextOrd), name: '#' });
    }
    if mode == Mode::Text && name == '#' {
        return Some(Symbol { mode: Mode::Text, font: Font::Main, group: Group::NonAtom(NonAtomGroup::TextOrd), name: '#' });
    }
    if mode == Mode::Math && name == '&' {
        return Some(Symbol { mode: Mode::Math, font: Font::Main, group: Group::Atom(AtomGroup::Bin), name: '&' });
    }
    if mode == Mode::Text && name == '&' {
        return Some(Symbol { mode: Mode::Text, font: Font::Main, group: Group::NonAtom(NonAtomGroup::TextOrd), name: '&' });
    }
    if mode == Mode::Math && name == 'ℵ' {
        return Some(Symbol { mode: Mode::Math, font: Font::Main, group: Group::NonAtom(NonAtomGroup::TextOrd), name: 'ℵ' });
    }
    if mode == Mode::Math && name == '∀' {
        return Some(Symbol { mode: Mode::Math, font: Font::Main, group: Group::NonAtom(NonAtomGroup::TextOrd), name: '∀' });
    }
    if mode == Mode::Math && name == 'ℏ' {
        return Some(Symbol { mode: Mode::Math, font: Font::Ams, group: Group::NonAtom(NonAtomGroup::TextOrd), name: 'ℏ' });
    }
    if mode == Mode::Math && name == '∃' {
        return Some(Symbol { mode: Mode::Math, font: Font::Main, group: Group::NonAtom(NonAtomGroup::TextOrd), name: '∃' });
    }
    if mode == Mode::Math && name == '∇' {
        return Some(Symbol { mode: Mode::Math, font: Font::Main, group: Group::NonAtom(NonAtomGroup::TextOrd), name: '∇' });
    }
    if mode == Mode::Math && name == '♭' {
        return Some(Symbol { mode: Mode::Math, font: Font::Main, group: Group::NonAtom(NonAtomGroup::TextOrd), name: '♭' });
    }
    if mode == Mode::Math && name == 'ℓ' {
        return Some(Symbol { mode: Mode::Math, font: Font::Main, group: Group::NonAtom(NonAtomGroup::TextOrd), name: 'ℓ' });
    }
    if mode == Mode::Math && name == '♮' {
        return Some(Symbol { mode: Mode::Math, font: Font::Main, group: Group::NonAtom(NonAtomGroup::TextOrd), name: '♮' });
    }
    if mode == Mode::Math && name == '♣' {
        return Some(Symbol { mode: Mode::Math, font: Font::Main, group: Group::NonAtom(NonAtomGroup::TextOrd), name: '♣' });
    }
    if mode == Mode::Math && name == '℘' {
        return Some(Symbol { mode: Mode::Math, font: Font::Main, group: Group::NonAtom(NonAtomGroup::TextOrd), name: '℘' });
    }
    if mode == Mode::Math && name == '♯' {
        return Some(Symbol { mode: Mode::Math, font: Font::Main, group: Group::NonAtom(NonAtomGroup::TextOrd), name: '♯' });
    }
    if mode == Mode::Math && name == '♢' {
        return Some(Symbol { mode: Mode::Math, font: Font::Main, group: Group::NonAtom(NonAtomGroup::TextOrd), name: '♢' });
    }
    if mode == Mode::Math && name == 'ℜ' {
        return Some(Symbol { mode: Mode::Math, font: Font::Main, group: Group::NonAtom(NonAtomGroup::TextOrd), name: 'ℜ' });
    }
    if mode == Mode::Math && name == '♡' {
        return Some(Symbol { mode: Mode::Math, font: Font::Main, group: Group::NonAtom(NonAtomGroup::TextOrd), name: '♡' });
    }
    if mode == Mode::Math && name == 'ℑ' {
        return Some(Symbol { mode: Mode::Math, font: Font::Main, group: Group::NonAtom(NonAtomGroup::TextOrd), name: 'ℑ' });
    }
    if mode == Mode::Math && name == '♠' {
        return Some(Symbol { mode: Mode::Math, font: Font::Main, group: Group::NonAtom(NonAtomGroup::TextOrd), name: '♠' });
    }
    None
}

/// One part of the bulk symbol table.
pub open spec fn table_part_1(mode: Mode, name: char) -> Option<Symbol> {
    if mode == Mode::Math && name == '§' {
        Some(Symbol { mode: Mode::Math, font: Font::Main, group: Group::NonAtom(NonAtomGroup::TextOrd), name: '§' })
    } else if mode == Mode::Text && name == '§' {
        Some(Symbol { mode: Mode::Text, font: Font::Main, group: Group::NonAtom(NonAtomGroup::TextOrd), name: '§' })
    } else if mode == Mode::Math && name == '¶' {
        Some(Symbol { mode: Mode::Math, font: Font::Main, group: Group::NonAtom(NonAtomGroup::TextOrd), name: '¶' })
    } else if mode == Mode::Text && name == '¶' {
        Some(Symbol { mode: Mode::Text, font: Font::Main, group: Group::NonAtom(NonAtomGroup::TextOrd), name: '¶' })
    } else if mode == Mode::Math && name == '†' {
        Some(Symbol { mode: Mode::Math, font: Font::Main, group: Group::Atom(AtomGroup::Bin), name: '†' })
    } else if mode == Mode::Text && name == '†' {
        Some(Symbol { mode: Mode::Text, font: Font::Main, group: Group::NonAtom(NonAtomGroup::TextOrd), name: '†' })
    } else if mode == Mode::Math && name == '‡' {
        Some(Symbol { mode: Mode::Math, font: Font::Main, group: Group::Atom(AtomGroup::Bin), name: '‡' })
    } else if mode == Mode::Text && name == '‡' {
        Some(Symbol { mode: Mode::Text, font: Font::Main, group: Group::NonAtom(NonAtomGroup::TextOrd), name: '‡' })
    } else if mode == Mode::Math && name == '⎱' {
        Some(Symbol { mode: Mode::Math, font: Font::Main, group: Group::Atom(AtomGroup::Close), name: '⎱' })
    } else if mode == Mode::Math && name == '⎰' {
        Some(Symbol { mode: Mode::Math, font: Font::Main, group: Group::Atom(AtomGroup::Open), name: '⎰' })
    } else if mode == Mode::Math && name == '⟯' {
        Some(Symbol { mode: Mode::Math, font: Font::Main, group: Group::Atom(AtomGroup::Close), name: '⟯' })
    } else if mode == Mode::Math && name == '⟮' {
        Some(Symbol { mode: Mode::Math, font: Font::Main, group: Group::Atom(AtomGroup::Open), name: '⟮' })
    } else if mode == Mode::Math && name == '∓' {
        Some(Symbol { mode: Mode::Math, font: Font::Main, group: Group::Atom(AtomGroup::Bin), name: '∓' })
    } else if mode == Mode::Math && name == '⊖' {
        Some(Symbol { mode: Mode::Math, font: Font::Main, group: Group::Atom(AtomGroup::Bin), name: '⊖' })
    } else if mode == Mode::Math && name == '⊎' {
        Some(Symbol { mode: Mode::Math, font: Font::Main, group: Group::Atom(AtomGroup::Bin), name: '⊎' })
    } else if mode == Mode::Math && name == '⊓' {
        Some(Symbol { mode: Mode::Math, font: Font::Main, group: Group::Atom(AtomGroup::Bin), name: '⊓' })
    } else if mode == Mode::Math && name == '∗' {
        Some(Symbol { mode: Mode::Math, font: Font::Main, group: Group::Atom(AtomGroup::Bin), name: '∗' })
    } else if mode == Mode::Math && name == '⊔' {
        Some(Symbol { mode: Mode::Math, font: Font::Main, group: Group::Atom(AtomGroup::Bin), name: '⊔' })
    } else if mode == Mode::Math && name == '◯' {
        Some(Symbol { mode: Mode::Math, font: Font::Main, group: Group::Atom(AtomGroup::Bin), name: '◯' })
    } else if mode == Mode::Math && name == '∙' {
        Some(Symbol { mode: Mode::Math, font: Font::Main, group: Group::Atom(AtomGroup::Bin), name: '∙' })
    } else if mode == Mode::Math && name == '≀' {
        Some(Symbol { mode: Mode::Math, font: Font::Main, group: Group::Atom(AtomGroup::Bin), name: '≀' })
    } else if mode == Mode::Math && name == '⨿' {
        Some(Symbol { mode: Mode::Math, font: Font::Main, group: Group::Atom(AtomGroup::Bin), name: '⨿' })
    } else if mode == Mode::Math && name == '⟵' {
        Some(Symbol { mode: Mode::Math, font: Font::Main, group: Group::Atom(AtomGroup::Rel), name: '⟵' })
    } else if mode == Mode::Math && name == '⇐' {
        Some(Symbol { mode: Mode::Math, font: Font::Main, group: Group::Atom(AtomGroup::Rel), name: '⇐' })
    } else if mode == Mode::Math && name == '⟸' {
        Some(Symbol { mode: Mode::Math, font: Font::Main, group: Group::Atom(AtomGroup::Rel), name: '⟸' })
    } else if mode == Mode::Math && name == '⟶' {
        Some(Symbol { mode: Mode::Math, font: Font::Main, group: Group::Atom(AtomGroup::Rel), name: '⟶' })
    } else if mode == Mode::Math && name == '⇒' {
        Some(Symbol { mode: Mode::Math, font: Font::Main, group: Group::Atom(AtomGroup::Rel), name: '⇒' })
    } else if mode == Mode::Math && name == '⟹' {
        Some(Symbol { mode: Mode::Math, font: Font::Main, group: Group::Atom(AtomGroup::Rel), name: '⟹' })
    } else if mode == Mode::Math && name == '↔' {
        Some(Symbol { mode: Mode::Math, font: Font::Main, group: Group::Atom(AtomGroup::Rel), name: '↔' })
    } else if mode == Mode::Math && name == '⟷' {
        Some(Symbol { mode: Mode::Math, font: Font::Main, group: Group::Atom(AtomGroup::Rel), name: '⟷' })
    } else if mode == Mode::Math && name == '⇔' {
        Some(Symbol { mode: Mode::Math, font: Font::Main, group: Group::Atom(AtomGroup::Rel), name: '⇔' })
    } else if mode == Mode::Math && name == '⟺' {
        Some(Symbol { mode: Mode::Math, font: Font::Main, group: Group::Atom(AtomGroup::Rel), name: '⟺' })
    } else if mode == Mode::Math && name == '↦' {
        Some(Symbol { mode: Mode::Math, font: Font::Main, group: Group::Atom(AtomGroup::Rel), name: '↦' })
    } else if mode == Mode::Math && name == '⟼' {
        Some(Symbol { mode: Mode::Math, font: Font::Main, group: Group::Atom(AtomGroup::Rel), name: '⟼' })
    } else if mode == Mode::Math && name == '↗' {
        Some(Symbol { mode: Mode::Math, font: Font::Main, group: Group::Atom(AtomGroup::Rel), name: '↗' })
    } else if mode == Mode::Math && name == '↩' {
        Some(Symbol { mode: Mode::Math, font: Font::Main, group: Group::Atom(AtomGroup::Rel), name: '↩' })
    } else if mode == Mode::Math && name == '↪' {
        Some(Symbol { mode: Mode::Math, font: Font::Main, group: Group::Atom(AtomGroup::Rel), name: '↪' })
    } else if mode == Mode::Math && name == '↘' {
        Some(Symbol { mode: Mode::Math, font: Font::Main, group: Group::Atom(AtomGroup::Rel), name: '↘' })
    } else if mode == Mode::Math && name == '↼' {
        Some(Symbol { mode: Mode::Math, font: Font::Main, group: Group::Atom(AtomGroup::Rel), name: '↼' })
    } else if mode == Mode::Math && name == '⇀' {
        Some(Symbol { mode: Mode::Math, font: Font::Main, group: Group::Atom(AtomGroup::Rel), name: '⇀' })
    } else if mode == Mode::Math && name == '↙' {
        Some(Symbol { mode: Mode::Math, font: Font::Main, group: Group::Atom(AtomGroup::Rel), name: '↙' })
    } else if mode == Mode::Math && name == '↽' {
        Some(Symbol { mode: Mode::Math, font: Font::Main, group: Group::Atom(AtomGroup::Rel), name: '↽' })
    } else if mode == Mode::Math && name == '⇁' {
        Some(Symbol { mode: Mode::Math, font: Font::Main, group: Group::Atom(AtomGroup::Rel), name: '⇁' })
    } else if mode == Mode::Math && name == '↖' {
        Some(Symbol { mode: Mode::Math, font: Font::Main, group: Group::Atom(AtomGroup::Rel), name: '↖' })
    } else if mode == Mode::Math && name == '⇌' {
        Some(Symbol { mode: Mode::Math, font: Font::Main, group: Group::Atom(AtomGroup::Rel), name: '⇌' })
    } else {
        None
    }
}

fn lookup_part_1(mode: Mode, name: char) -> (r: Option<Symbol>)
    ensures
        r == table_part_1(mode, name),
{
    if mode == Mode::Math && name == '§' {
        return Some(Symbol { mode: Mode::Math, font: Font::Main, group: Group::NonAtom(NonAtomGroup::TextOrd), name: '§' });
    }
    if mode == Mode::Text && name == '§' {
        return Some(Symbol { mode: Mode::Text, font: Font::Main, group: Group::NonAtom(NonAtomGroup::TextOrd), name: '§' });
    }
    if mode == Mode::Math && name == '¶' {
        return Some(Symbol { mode: Mode::Math, font: Font::Main, group: Group::NonAtom(NonAtomGroup::TextOrd), name: '¶' });
    }
    if mode == Mode::Text && name == '¶' {
        return Some(Symbol { mode: Mode::Text, font: Font::Main, group: Group::NonAtom(NonAtomGroup::TextOrd), name: '¶' });
    }
    if mode == Mode::Math && name == '†' {
        return Some(Symbol { mode: Mode::Math, font: Font::Main, group: Group::Atom(AtomGroup::Bin), name: '†' });
    }
    if mode == Mode::Text && name == '†' {
        return Some(Symbol { mode: Mode::Text, font: Font::Main, group: Group::NonAtom(NonAtomGroup::TextOrd), name: '†' });
    }
    if mode == Mode::Math && name == '‡' {
        return Some(Symbol { mode: Mode::Math, font: Font::Main, group: Group::Atom(AtomGroup::Bin), name: '‡' });
    }
    if mode == Mode::Text && name == '‡' {
        return Some(Symbol { mode: Mode::Text, font: Font::Main, group: Group::NonAtom(NonAtomGroup::TextOrd), name: '‡' });
    }
    if mode == Mode::Math && name == '⎱' {
        return Some(Symbol { mode: Mode::Math, font: Font::Main, group: Group::Atom(AtomGroup::Close), name: '⎱' });
    }
    if mode == Mode::Math && name == '⎰' {
        return Some(Symbol { mode: Mode::Math, font: Font::Main, group: Group::Atom(AtomGroup::Open), name: '⎰' });
    }
    if mode == Mode::Math && name == '⟯' {
        return Some(Symbol { mode: Mode::Math, font: Font::Main, group: Group::Atom(AtomGroup::Close), name: '⟯' });
    }
    if mode == Mode::Math && name == '⟮' {
        return Some(Symbol { mode: Mode::Math, font: Font::Main, group: Group::Atom(AtomGroup::Open), name: '⟮' });
    }
    if mode == Mode::Math && name == '∓' {
        return Some(Symbol { mode: Mode::Math, font: Font::Main, group: Group::Atom(AtomGroup::Bin), name: '∓' });
    }
    if mode == Mode::Math && name == '⊖' {
        return Some(Symbol { mode: Mode::Math, font: Font::Main, group: Group::Atom(AtomGroup::Bin), name: '⊖' });
    }
    if mode == Mode::Math && name == '⊎' {
        return Some(Symbol { mode: Mode::Math, font: Font::Main, group: Group::Atom(AtomGroup::Bin), name: '⊎' });
    }
    if mode == Mode::Math && name == '⊓' {
        return Some(Symbol { mode: Mode::Math, font: Font::Main, group: Group::Atom(AtomGroup::Bin), name: '⊓' });
    }
    if mode == Mode::Math && name == '∗' {
        return Some(Symbol { mode: Mode::Math, font: Font::Main, group: Group::Atom(AtomGroup::Bin), name: '∗' });
    }
    if mode == Mode::Math && name == '⊔' {
        return Some(Symbol { mode: Mode::Math, font: Font::Main, group: Group::Atom(AtomGroup::Bin), name: '⊔' });
    }
    if mode == Mode::Math && name == '◯' {
        return Some(Symbol { mode: Mode::Math, font: Font::Main, group: Group::Atom(AtomGroup::Bin), name: '◯' });
    }
    if mode == Mode::Math && name == '∙' {
        return Some(Symbol { mode: Mode::Math, font: Font::Main, group: Group::Atom(AtomGroup::Bin), name: '∙' });
    }
    if mode == Mode::Math && name == '≀' {
        return Some(Symbol { mode: Mode::Math, font: Font::Main, group: Group::Atom(AtomGroup::Bin), name: '≀' });
    }
    if mode == Mode::Math && name == '⨿' {
        return Some(Symbol { mode: Mode::Math, font: Font::Main, group: Group::Atom(AtomGroup::Bin), name: '⨿' });
    }
    if mode == Mode::Math && name == '⟵' {
        return Some(Symbol { mode: Mode::Math, font: Font::Main, group: Group::Atom(AtomGroup::Rel), name: '⟵' });
    }
    if mode == Mode::Math && name == '⇐' {
        return Some(Symbol { mode: Mode::Math, font: Font::Main, group: Group::Atom(AtomGroup::Rel), name: '⇐' });
    }
    if mode == Mode::Math && name == '⟸' {
        return Some(Symbol { mode: Mode::Math, font: Font::Main, group: Group::Atom(AtomGroup::Rel), name: '⟸' });
    }
    if mode == Mode::Math && name == '⟶' {
        return Some(Symbol { mode: Mode::Math, font: Font::Main, group: Group::Atom(AtomGroup::Rel), name: '⟶' });
    }
    if mode == Mode::Math && name == '⇒' {
        return Some(Symbol { mode: Mode::Math, font: Font::Main, group: Group::Atom(AtomGroup::Rel), name: '⇒' });
    }
    if mode == Mode::Math && name == '⟹' {
        return Some(Symbol { mode: Mode::Math, font: Font::Main, group: Group::Atom(AtomGroup::Rel), name: '⟹' });
    }
    if mode == Mode::Math && name == '↔' {
        return Some(Symbol { mode: Mode::Math, font: Font::Main, group: Group::Atom(AtomGroup::Rel), name: '↔' });
    }
    if mode == Mode::Math && name == '⟷' {
        return Some(Symbol { mode: Mode::Math, font: Font::Main, group: Group::Atom(AtomGroup::Rel), name: '⟷' });
    }
    if mode == Mode::Math && name == '⇔' {
        return Some(Symbol { mode: Mode::Math, font: Font::Main, group: Group::Atom(AtomGroup::Rel), name: '⇔' });
    }
    if mode == Mode::Math && name == '⟺' {
        return Some(Symbol { mode: Mode::Math, font: Font::Main, group: Group::Atom(AtomGroup::Rel), name: '⟺' });
    }
    if mode == Mode::Math && name == '↦' {
        return Some(Symbol { mode: Mode::Math, font: Font::Main, group: Group::Atom(AtomGroup::Rel), name: '↦' });
    }
    if mode == Mode::Math && name == '⟼' {
        return Some(Symbol { mode: Mode::Math, font: Font::Main, group: Group::Atom(AtomGroup::Rel), name: '⟼' });
    }
    if mode == Mode::Math && name == '↗' {
        return Some(Symbol { mode: Mode::Math, font: Font::Main, group: Group::Atom(AtomGroup::Rel), name: '↗' });
    }
    if mode == Mode::Math && name == '↩' {
        return Some(Symbol { mode: Mode::Math, font: Font::Main, group: Group::Atom(AtomGroup::Rel), name: '↩' });
    }
    if mode == Mode::Math && name == '↪' {
        return Some(Symbol { mode: Mode::Math, font: Font::Main, group: Group::Atom(AtomGroup::Rel), name: '↪' });
    }
    if mode == Mode::Math && name == '↘' {
        return Some(Symbol { mode: Mode::Math, font: Font::Main, group: Group::Atom(AtomGroup::Rel), name: '↘' });
    }
    if mode == Mode::Math && name == '↼' {
        return Some(Symbol { mode: Mode::Math, font: Font::Main, group: Group::Atom(AtomGroup::Rel), name: '↼' });
    }
    if mode == Mode::Math && name == '⇀' {
        return Some(Symbol { mode: Mode::Math, font: Font::Main, group: Group::Atom(AtomGroup::Rel), name: '⇀' });
    }
    if mode == Mode::Math && name == '↙' {
        return Some(Symbol { mode: Mode::Math, font: Font::Main, group: Group::Atom(AtomGroup::Rel), name: '↙' });
    }
    if mode == Mode::Math && name == '↽' {
        return Some(Symbol { mode: Mode::Math, font: Font::Main, group: Group::Atom(AtomGroup::Rel), name: '↽' });
    }
    if mode == Mode::Math && name == '⇁' {
        return Some(Symbol { mode: Mode::Math, font: Font::Main, group: Group::Atom(AtomGroup::Rel), name: '⇁' });
    }
    if mode == Mode::Math && name == '↖' {
        return Some(Symbol { mode: Mode::Math, font: Font::Main, group: Group::Atom(AtomGroup::Rel), name: '↖' });
    }
    if mode == Mode::Math && name == '⇌' {
        return Some(Symbol { mode: Mode::Math, font: Font::Main, group: Group::Atom(AtomGroup::Rel), name: '⇌' });
    }
    None
}

/// One part of the bulk symbol table.
pub open spec fn table_part_2(mode: Mode, name: char) -> Option<Symbol> {
    if mode == Mode::Math && name == '≮' {
        Some(Symbol { mode: Mode::Math, font: Font::Ams, group: Group::Atom(AtomGroup::Rel), name: '≮' })
    } else if mode == Mode::Math && name == '' {
        Some(Symbol { mode: Mode::Math, font: Font::Ams, group: Group::Atom(AtomGroup::Rel), name: '' })
    } else if mode == Mode::Math && name == '' {
        Some(Symbol { mode: Mode::Math, font: Font::Ams, group: Group::Atom(AtomGroup::Rel), name: '' })
    } else if mode == Mode::Math && name == '⪇' {
        Some(Symbol { mode: Mode::Math, font: Font::Ams, group: Group::Atom(AtomGroup::Rel), name: '⪇' })
    } else if mode == Mode::Math && name == '≨' {
        Some(Symbol { mode: Mode::Math, font: Font::Ams, group: Group::Atom(AtomGroup::Rel), name: '≨' })
    } else if mode == Mode::Math && name == '' {
        Some(Symbol { mode: Mode::Math, font: Font::Ams, group: Group::Atom(AtomGroup::Rel), name: '' })
    } else if mode == Mode::Math && name == '⋦' {
        Some(Symbol { mode: Mode::Math, font: Font::Ams, group: Group::Atom(AtomGroup::Rel), name: '⋦' })
    } else if mode == Mode::Math && name == '⪉' {
        Some(Symbol { mode: Mode::Math, font: Font::Ams, group: Group::Atom(AtomGroup::Rel), name: '⪉' })
    } else if mode == Mode::Math && name == '⊀' {
        Some(Symbol { mode: Mode::Math, font: Font::Ams, group: Group::Atom(AtomGroup::Rel), name: '⊀' })
    } else if mode == Mode::Math && name == '⋠' {
        Some(Symbol { mode: Mode::Math, font: Font::Ams, group: Group::Atom(AtomGroup::Rel), name: '⋠' })
    } else if mode == Mode::Math && name == '⋨' {
        Some(Symbol { mode: Mode::Math, font: Font::Ams, group: Group::Atom(AtomGroup::Rel), name: '⋨' })
    } else if mode == Mode::Math && name == '⪹' {
        Some(Symbol { mode: Mode::Math, font: Font::Ams, group: Group::Atom(AtomGroup::Rel), name: '⪹' })
    } else if mode == Mode::Math && name == '≁' {
        Some(Symbol { mode: Mode::Math, font: Font::Ams, group: Group::Atom(AtomGroup::Rel), name: '≁' })
    } else if mode == Mode::Math && name == '' {
        Some(Symbol { mode: Mode::Math, font: Font::Ams, group: Group::Atom(AtomGroup::Rel), name: '' })
    } else if mode == Mode::Math && name == '∤' {
        Some(Symbol { mode: Mode::Math, font: Font::Ams, group: Group::Atom(AtomGroup::Rel), name: '∤' })
    } else if mode == Mode::Math && name == '⊬' {
        Some(Symbol { mode: Mode::Math, font: Font::Ams, group: Group::Atom(AtomGroup::Rel), name: '⊬' })
    } else if mode == Mode::Math && name == '⊭' {
        Some(Symbol { mode: Mode::Math, font: Font::Ams, group: Group::Atom(AtomGroup::Rel), name: '⊭' })
    } else if mode == Mode::Math && name == '⋪' {
        Some(Symbol { mode: Mode::Math, font: Font::Ams, group: Group::Atom(AtomGroup::Rel), name: '⋪' })
    } else if mode == Mode::Math && name == '⋬' {
        Some(Symbol { mode: Mode::Math, font: Font::Ams, group: Group::Atom(AtomGroup::Rel), name: '⋬' })
    } else if mode == Mode::Math && name == '⊊' {
        Some(Symbol { mode: Mode::Math, font: Font::Ams, group: Group::Atom(AtomGroup::Rel), name: '⊊' })
    } else if mode == Mode::Math && name == '' {
        Some(Symbol { mode: Mode::Math, font: Font::Ams, group: Group::Atom(AtomGroup::Rel), name: '' })
    } else if mode == Mode::Math && name == '⫋' {
        Some(Symbol { mode: Mode::Math, font: Font::Ams, group: Group::Atom(AtomGroup::Rel), name: '⫋' })
    } else if mode == Mode::Math && name == '' {
        Some(Symbol { mode: Mode::Math, font: Font::Ams, group: Group::Atom(AtomGroup::Rel), name: '' })
    } else if mode == Mode::Math && name == '≯' {
        Some(Symbol { mode: Mode::Math, font: Font::Ams, group: Group::Atom(AtomGroup::Rel), name: '≯' })
    } else if mode == Mode::Math && name == '' {
        Some(Symbol { mode: Mode::Math, font: Font::Ams, group: Group::Atom(AtomGroup::Rel), name: '' })
    } else if mode == Mode::Math && name == '' {
        Some(Symbol { mode: Mode::Math, font: Font::Ams, group: Group::Atom(AtomGroup::Rel), name: '' })
    } else if mode == Mode::Math && name == '⪈' {
        Some(Symbol { mode: Mode::Math, font: Font::Ams, group: Group::Atom(AtomGroup::Rel), name: '⪈' })
    } else if mode == Mode::Math && name == '≩' {
        Some(Symbol { mode: Mode::Math, font: Font::Ams, group: Group::Atom(AtomGroup::Rel), name: '≩' })
    } else if mode == Mode::Math && name == '' {
        Some(Symbol { mode: Mode::Math, font: Font::Ams, group: Group::Atom(AtomGroup::Rel), name: '' })
    } else if mode == Mode::Math && name == '⋧' {
        Some(Symbol { mode: Mode::Math, font: Font::Ams, group: Group::Atom(AtomGroup::Rel), name: '⋧' })
    } else if mode == Mode::Math && name == '⪊' {
        Some(Symbol { mode: Mode::Math, font: Font::Ams, group: Group::Atom(AtomGroup::Rel), name: '⪊' })
    } else if mode == Mode::Math && name == '⊁' {
        Some(Symbol { mode: Mode::Math, font: Font::Ams, group: Group::Atom(AtomGroup::Rel), name: '⊁' })
    } else if mode == Mode::Math && name == '⋡' {
        Some(Symbol { mode: Mode::Math, font: Font::Ams, group: Group::Atom(AtomGroup::Rel), name: '⋡' })
    } else if mode == Mode::Math && name == '⋩' {
        Some(Symbol { mode: Mode::Math, font: Font::Ams, group: Group::Atom(AtomGroup::Rel), name: '⋩' })
    } else if mode == Mode::Math && name == '⪺' {
        Some(Symbol { mode: Mode::Math, font: Font::Ams, group: Group::Atom(AtomGroup::Rel), name: '⪺' })
    } else if mode == Mode::Math && name == '≆' {
        Some(Symbol { mode: Mode::Math, font: Font::Ams, group: Group::Atom(AtomGroup::Rel), name: '≆' })
    } else if mode == Mode::Math && name == '' {
        Some(Symbol { mode: Mode::Math, font: Font::Ams, group: Group::Atom(AtomGroup::Rel), name: '' })
    } else if mode == Mode::Math && name == '∦' {
        Some(Symbol { mode: Mode::Math, font: Font::Ams, group: Group::Atom(AtomGroup::Rel), name: '∦' })
    } else if mode == Mode::Math && name == '⊯' {
        Some(Symbol { mode: Mode::Math, font: Font::Ams, group: Group::Atom(AtomGroup::Rel), name: '⊯' })
    } else if mode == Mode::Math && name == '⋫' {
        Some(Symbol { mode: Mode::Math, font: Font::Ams, group: Group::Atom(AtomGroup::Rel), name: '⋫' })
    } else if mode == Mode::Math && name == '⋭' {
        Some(Symbol { mode: Mode::Math, font: Font::Ams, group: Group::Atom(AtomGroup::Rel), name: '⋭' })
    } else if mode == Mode::Math && name == '' {
        Some(Symbol { mode: Mode::Math, font: Font::Ams, group: Group::Atom(AtomGroup::Rel), name: '' })
    } else if mode == Mode::Math && name == '⊋' {
        Some(Symbol { mode: Mode::Math, font: Font::Ams, group: Group::Atom(AtomGroup::Rel), name: '⊋' })
    } else if mode == Mode::Math && name == '' {
        Some(Symbol { mode: Mode::Math, font: Font::Ams, group: Group::Atom(AtomGroup::Rel), name: '' })
    } else if mode == Mode::Math && name == '⫌' {
        Some(Symbol { mode: Mode::Math, font: Font::Ams, group: Group::Atom(AtomGroup::Rel), name: '⫌' })
    } else {
        None
    }
}

fn lookup_part_2(mode: Mode, name: char) -> (r: Option<Symbol>)
    ensures
        r == table_part_2(mode, name),
{
    if mode == Mode::Math && name == '≮' {
        return Some(Symbol { mode: Mode::Math, font: Font::Ams, group: Group::Atom(AtomGroup::Rel), name: '≮' });
    }
    if mode == Mode::Math && name == '' {
        return Some(Symbol { mode: Mode::Math, font: Font::Ams, group: Group::Atom(AtomGroup::Rel), name: '' });
    }
    if mode == Mode::Math && name == '' {
        return Some(Symbol { mode: Mode::Math, font: Font::Ams, group: Group::Atom(AtomGroup::Rel), name: '' });
    }
    if mode == Mode::Math && name == '⪇' {
        return Some(Symbol { mode: Mode::Math, font: Font::Ams, group: Group::Atom(AtomGroup::Rel), name: '⪇' });
    }
    if mode == Mode::Math && name == '≨' {
        return Some(Symbol { mode: Mode::Math, font: Font::Ams, group: Group::Atom(AtomGroup::Rel), name: '≨' });
    }
    if mode == Mode::Math && name == '' {
        return Some(Symbol { mode: Mode::Math, font: Font::Ams, group: Group::Atom(AtomGroup::Rel), name: '' });
    }
    if mode == Mode::Math && name == '⋦' {
        return Some(Symbol { mode: Mode::Math, font: Font::Ams, group: Group::Atom(AtomGroup::Rel), name: '⋦' });
    }
    if mode == Mode::Math && name == '⪉' {
        return Some(Symbol { mode: Mode::Math, font: Font::Ams, group: Group::Atom(AtomGroup::Rel), name: '⪉' });
    }
    if mode == Mode::Math && name == '⊀' {
        return Some(Symbol { mode: Mode::Math, font: Font::Ams, group: Group::Atom(AtomGroup::Rel), name: '⊀' });
    }
    if mode == Mode::Math && name == '⋠' {
        return Some(Symbol { mode: Mode::Math, font: Font::Ams, group: Group::Atom(AtomGroup::Rel), name: '⋠' });
    }
    if mode == Mode::Math && name == '⋨' {
        return Some(Symbol { mode: Mode::Math, font: Font::Ams, group: Group::Atom(AtomGroup::Rel), name: '⋨' });
    }
    if mode == Mode::Math && name == '⪹' {
        return Some(Symbol { mode: Mode::Math, font: Font::Ams, group: Group::Atom(AtomGroup::Rel), name: '⪹' });
    }
    if mode == Mode::Math && name == '≁' {
        return Some(Symbol { mode: Mode::Math, font: Font::Ams, group: Group::Atom(AtomGroup::Rel), name: '≁' });
    }
    if mode == Mode::Math && name == '' {
        return Some(Symbol { mode: Mode::Math, font: Font::Ams, group: Group::Atom(AtomGroup::Rel), name: '' });
    }
    if mode == Mode::Math && name == '∤' {
        return Some(Symbol { mode: Mode::Math, font: Font::Ams, group: Group::Atom(AtomGroup::Rel), name: '∤' });
    }
    if mode == Mode::Math && name == '⊬' {
        return Some(Symbol { mode: Mode::Math, font: Font::Ams, group: Group::Atom(AtomGroup::Rel), name: '⊬' });
    }
    if mode == Mode::Math && name == '⊭' {
        return Some(Symbol { mode: Mode::Math, font: Font::Ams, group: Group::Atom(AtomGroup::Rel), name: '⊭' });
    }
    if mode == Mode::Math && name == '⋪' {
        return Some(Symbol { mode: Mode::Math, font: Font::Ams, group: Group::Atom(AtomGroup::Rel), name: '⋪' });
    }
    if mode == Mode::Math && name == '⋬' {
        return Some(Symbol { mode: Mode::Math, font: Font::Ams, group: Group::Atom(AtomGroup::Rel), name: '⋬' });
    }
    if mode == Mode::Math && name == '⊊' {
        return Some(Symbol { mode: Mode::Math, font: Font::Ams, group: Group::Atom(AtomGroup::Rel), name: '⊊' });
    }
    if mode == Mode::Math && name == '' {
        return Some(Symbol { mode: Mode::Math, font: Font::Ams, group: Group::Atom(AtomGroup::Rel), name: '' });
    }
    if mode == Mode::Math && name == '⫋' {
        return Some(Symbol { mode: Mode::Math, font: Font::Ams, group: Group::Atom(AtomGroup::Rel), name: '⫋' });
    }
    if mode == Mode::Math && name == '' {
        return Some(Symbol { mode: Mode::Math, font: Font::Ams, group: Group::Atom(AtomGroup::Rel), name: '' });
    }
    if mode == Mode::Math && name == '≯' {
        return Some(Symbol { mode: Mode::Math, font: Font::Ams, group: Group::Atom(AtomGroup::Rel), name: '≯' });
    }
    if mode == Mode::Math && name == '' {
        return Some(Symbol { mode: Mode::Math, font: Font::Ams, group: Group::Atom(AtomGroup::Rel), name: '' });
    }
    if mode == Mode::Math && name == '' {
        return Some(Symbol { mode: Mode::Math, font: Font::Ams, group: Group::Atom(AtomGroup::Rel), name: '' });
    }
    if mode == Mode::Math && name == '⪈' {
        return Some(Symbol { mode: Mode::Math, font: Font::Ams, group: Group::Atom(AtomGroup::Rel), name: '⪈' });
    }
    if mode == Mode::Math && name == '≩' {
        return Some(Symbol { mode: Mode::Math, font: Font::Ams, group: Group::Atom(AtomGroup::Rel), name: '≩' });
    }
    if mode == Mode::Math && name == '' {
        return Some(Symbol { mode: Mode::Math, font: Font::Ams, group: Group::Atom(AtomGroup::Rel), name: '' });
    }
    if mode == Mode::Math && name == '⋧' {
        return Some(Symbol { mode: Mode::Math, font: Font::Ams, group: Group::Atom(AtomGroup::Rel), name: '⋧' });
    }
    if mode == Mode::Math && name == '⪊' {
        return Some(Symbol { mode: Mode::Math, font: Font::Ams, group: Group::Atom(AtomGroup::Rel), name: '⪊' });
    }
    if mode == Mode::Math && name == '⊁' {
        return Some(Symbol { mode: Mode::Math, font: Font::Ams, group: Group::Atom(AtomGroup::Rel), name: '⊁' });
    }
    if mode == Mode::Math && name == '⋡' {
        return Some(Symbol { mode: Mode::Math, font: Font::Ams, group: Group::Atom(AtomGroup::Rel), name: '⋡' });
    }
    if mode == Mode::Math && name == '⋩' {
        return Some(Symbol { mode: Mode::Math, font: Font::Ams, group: Group::Atom(AtomGroup::Rel), name: '⋩' });
    }
    if mode == Mode::Math && name == '⪺' {
        return Some(Symbol { mode: Mode::Math, font: Font::Ams, group: Group::Atom(AtomGroup::Rel), name: '⪺' });
    }
    if mode == Mode::Math && name == '≆' {
        return Some(Symbol { mode: Mode::Math, font: Font::Ams, group: Group::Atom(AtomGroup::Rel), name: '≆' });
    }
    if mode == Mode::Math && name == '' {
        return Some(Symbol { mode: Mode::Math, font: Font::Ams, group: Group::Atom(AtomGroup::Rel), name: '' });
    }
    if mode == Mode::Math && name == '∦' {
        return Some(Symbol { mode: Mode::Math, font: Font::Ams, group: Group::Atom(AtomGroup::Rel), name: '∦' });
    }
    if mode == Mode::Math && name == '⊯' {
        return Some(Symbol { mode: Mode::Math, font: Font::Ams, group: Group::Atom(AtomGroup::Rel), name: '⊯' });
    }
    if mode == Mode::Math && name == '⋫' {
        return Some(Symbol { mode: Mode::Math, font: Font::Ams, group: Group::Atom(AtomGroup::Rel), name: '⋫' });
    }
    if mode == Mode::Math && name == '⋭' {
        return Some(Symbol { mode: Mode::Math, font: Font::Ams, group: Group::Atom(AtomGroup::Rel), name: '⋭' });
    }
    if mode == Mode::Math && name == '' {
        return Some(Symbol { mode: Mode::Math, font: Font::Ams, group: Group::Atom(AtomGroup::Rel), name: '' });
    }
    if mode == Mode::Math && name == '⊋' {
        return Some(Symbol { mode: Mode::Math, font: Font::Ams, group: Group::Atom(AtomGroup::Rel), name: '⊋' });
    }
    if mode == Mode::Math && name == '' {
        return Some(Symbol { mode: Mode::Math, font: Font::Ams, group: Group::Atom(AtomGroup::Rel), name: '' });
    }
    if mode == Mode::Math && name == '⫌' {
        return Some(Symbol { mode: Mode::Math, font: Font::Ams, group: Group::Atom(AtomGroup::Rel), name: '⫌' });
    }
    None
}

/// One part of the bulk symbol table.
pub open spec fn table_part_3(mode: Mode, name: char) -> Option<Symbol> {
    if mode == Mode::Math && name == '' {
        Some(Symbol { mode: Mode::Math, font: Font::Ams, group: Group::Atom(AtomGroup::Rel), name: '' })
    } else if mode == Mode::Math && name == '⊮' {
        Some(Symbol { mode: Mode::Math, font: Font::Ams, group: Group::Atom(AtomGroup::Rel), name: '⊮' })
    } else if mode == Mode::Math && name == '⪵' {
        Some(Symbol { mode: Mode::Math, font: Font::Ams, group: Group::Atom(AtomGroup::Rel), name: '⪵' })
    } else if mode == Mode::Math && name == '⪶' {
        Some(Symbol { mode: Mode::Math, font: Font::Ams, group: Group::Atom(AtomGroup::Rel), name: '⪶' })
    } else if mode == Mode::Math && name == '' {
        Some(Symbol { mode: Mode::Math, font: Font::Ams, group: Group::Atom(AtomGroup::Rel), name: '' })
    } else if mode == Mode::Math && name == '⊴' {
        Some(Symbol { mode: Mode::Math, font: Font::Ams, group: Group::Atom(AtomGroup::Rel), name: '⊴' })
    } else if mode == Mode::Math && name == '⊵' {
        Some(Symbol { mode: Mode::Math, font: Font::Ams, group: Group::Atom(AtomGroup::Rel), name: '⊵' })
    } else if mode == Mode::Math && name == '↚' {
        Some(Symbol { mode: Mode::Math, font: Font::Ams, group: Group::Atom(AtomGroup::Rel), name: '↚' })
    } else if mode == Mode::Math && name == '↛' {
        Some(Symbol { mode: Mode::Math, font: Font::Ams, group: Group::Atom(AtomGroup::Rel), name: '↛' })
    } else if mode == Mode::Math && name == '⇍' {
        Some(Symbol { mode: Mode::Math, font: Font::Ams, group: Group::Atom(AtomGroup::Rel), name: '⇍' })
    } else if mode == Mode::Math && name == '⇏' {
        Some(Symbol { mode: Mode::Math, font: Font::Ams, group: Group::Atom(AtomGroup::Rel), name: '⇏' })
    } else if mode == Mode::Math && name == '↮' {
        Some(Symbol { mode: Mode::Math, font: Font::Ams, group: Group::Atom(AtomGroup::Rel), name: '↮' })
    } else if mode == Mode::Math && name == '⇎' {
        Some(Symbol { mode: Mode::Math, font: Font::Ams, group: Group::Atom(AtomGroup::Rel), name: '⇎' })
    } else if mode == Mode::Math && name == '△' {
        Some(Symbol { mode: Mode::Math, font: Font::Main, group: Group::Atom(AtomGroup::Bin), name: '△' })
    } else if mode == Mode::Math && name == '▽' {
        Some(Symbol { mode: Mode::Math, font: Font::Main, group: Group::Atom(AtomGroup::Bin), name: '▽' })
    } else if mode == Mode::Math && name == '◊' {
        Some(Symbol { mode: Mode::Math, font: Font::Ams, group: Group::NonAtom(NonAtomGroup::TextOrd), name: '◊' })
    } else if mode == Mode::Math && name == 'Ⓢ' {
        Some(Symbol { mode: Mode::Math, font: Font::Ams, group: Group::NonAtom(NonAtomGroup::TextOrd), name: 'Ⓢ' })
    } else if mode == Mode::Math && name == '®' {
        Some(Symbol { mode: Mode::Math, font: Font::Ams, group: Group::NonAtom(NonAtomGroup::TextOrd), name: '®' })
    } else if mode == Mode::Text && name == '®' {
        Some(Symbol { mode: Mode::Text, font: Font::Ams, group: Group::NonAtom(NonAtomGroup::TextOrd), name: '®' })
    } else if mode == Mode::Math && name == '∡' {
        Some(Symbol { mode: Mode::Math, font: Font::Ams, group: Group::NonAtom(NonAtomGroup::TextOrd), name: '∡' })
    } else if mode == Mode::Math && name == '∄' {
        Some(Symbol { mode: Mode::Math, font: Font::Ams, group: Group::NonAtom(NonAtomGroup::TextOrd), name: '∄' })
    } else if mode == Mode::Math && name == '℧' {
        Some(Symbol { mode: Mode::Math, font: Font::Ams, group: Group::NonAtom(NonAtomGroup::TextOrd), name: '℧' })
    } else if mode == Mode::Math && name == 'Ⅎ' {
        Some(Symbol { mode: Mode::Math, font: Font::Ams, group: Group::NonAtom(NonAtomGroup::TextOrd), name: 'Ⅎ' })
    } else if mode == Mode::Math && name == '⅁' {
        Some(Symbol { mode: Mode::Math, font: Font::Ams, group: Group::NonAtom(NonAtomGroup::TextOrd), name: '⅁' })
    } else if mode == Mode::Math && name == '‵' {
        Some(Symbol { mode: Mode::Math, font: Font::Ams, group: Group::NonAtom(NonAtomGroup::TextOrd), name: '‵' })
    } else if mode == Mode::Math && name == '▲' {
        Some(Symbol { mode: Mode::Math, font: Font::Ams, group: Group::NonAtom(NonAtomGroup::TextOrd), name: '▲' })
    } else if mode == Mode::Math && name == '▼' {
        Some(Symbol { mode: Mode::Math, font: Font::Ams, group: Group::NonAtom(NonAtomGroup::TextOrd), name: '▼' })
    } else if mode == Mode::Math && name == '■' {
        Some(Symbol { mode: Mode::Math, font: Font::Ams, group: Group::NonAtom(NonAtomGroup::TextOrd), name: '■' })
    } else if mode == Mode::Math && name == '⧫' {
        Some(Symbol { mode: Mode::Math, font: Font::Ams, group: Group::NonAtom(NonAtomGroup::TextOrd), name: '⧫' })
    } else if mode == Mode::Math && name == '★' {
        Some(Symbol { mode: Mode::Math, font: Font::Ams, group: Group::NonAtom(NonAtomGroup::TextOrd), name: '★' })
    } else if mode == Mode::Math && name == '∢' {
        Some(Symbol { mode: Mode::Math, font: Font::Ams, group: Group::NonAtom(NonAtomGroup::TextOrd), name: '∢' })
    } else if mode == Mode::Math && name == '∁' {
        Some(Symbol { mode: Mode::Math, font: Font::Ams, group: Group::NonAtom(NonAtomGroup::TextOrd), name: '∁' })
    } else if mode == Mode::Math && name == 'ð' {
        Some(Symbol { mode: Mode::Math, font: Font::Ams, group: Group::NonAtom(NonAtomGroup::TextOrd), name: 'ð' })
    } else if mode == Mode::Text && name == 'ð' {
        Some(Symbol { mode: Mode::Text, font: Font::Main, group: Group::NonAtom(NonAtomGroup::TextOrd), name: 'ð' })
    } else if mode == Mode::Math && name == '╱' {
        Some(Symbol { mode: Mode::Math, font: Font::Ams, group: Group::NonAtom(NonAtomGroup::TextOrd), name: '╱' })
    } else if mode == Mode::Math && name == '╲' {
        Some(Symbol { mode: Mode::Math, font: Font::Ams, group: Group::NonAtom(NonAtomGroup::TextOrd), name: '╲' })
    } else if mode == Mode::Math && name == '□' {
        Some(Symbol { mode: Mode::Math, font: Font::Ams, group: Group::NonAtom(NonAtomGroup::TextOrd), name: '□' })
    } else if mode == Mode::Math && name == '¥' {
        Some(Symbol { mode: Mode::Math, font: Font::Ams, group: Group::NonAtom(NonAtomGroup::TextOrd), name: '¥' })
    } else if mode == Mode::Text && name == '¥' {
        Some(Symbol { mode: Mode::Text, font: Font::Ams, group: Group::NonAtom(NonAtomGroup::TextOrd), name: '¥' })
    } else if mode == Mode::Math && name == '✓' {
        Some(Symbol { mode: Mode::Math, font: Font::Ams, group: Group::NonAtom(NonAtomGroup::TextOrd), name: '✓' })
    } else if mode == Mode::Text && name == '✓' {
        Some(Symbol { mode: Mode::Text, font: Font::Ams, group: Group::NonAtom(NonAtomGroup::TextOrd), name: '✓' })
    } else if mode == Mode::Math && name == 'ℶ' {
        Some(Symbol { mode: Mode::Math, font: Font::Ams, group: Group::NonAtom(NonAtomGroup::TextOrd), name: 'ℶ' })
    } else if mode == Mode::Math && name == 'ℸ' {
        Some(Symbol { mode: Mode::Math, font: Font::Ams, group: Group::NonAtom(NonAtomGroup::TextOrd), name: 'ℸ' })
    } else if mode == Mode::Math && name == 'ℷ' {
        Some(Symbol { mode: Mode::Math, font: Font::Ams, group: Group::NonAtom(NonAtomGroup::TextOrd), name: 'ℷ' })
    } else if mode == Mode::Math && name == 'ϝ' {
        Some(Symbol { mode: Mode::Math, font: Font::Ams, group: Group::NonAtom(NonAtomGroup::TextOrd), name: 'ϝ' })
    } else {
        None
    }
}

fn lookup_part_3(mode: Mode, name: char) -> (r: Option<Symbol>)
    ensures
        r == table_part_3(mode, name),
{
    if mode == Mode::Math && name == '' {
        return Some(Symbol { mode: Mode::Math, font: Font::Ams, group: Group::Atom(AtomGroup::Rel), name: '' });
    }
    if mode == Mode::Math && name == '⊮' {
        return Some(Symbol { mode: Mode::Math, font: Font::Ams, group: Group::Atom(AtomGroup::Rel), name: '⊮' });
    }
    if mode == Mode::Math && name == '⪵' {
        return Some(Symbol { mode: Mode::Math, font: Font::Ams, group: Group::Atom(AtomGroup::Rel), name: '⪵' });
    }
    if mode == Mode::Math && name == '⪶' {
        return Some(Symbol { mode: Mode::Math, font: Font::Ams, group: Group::Atom(AtomGroup::Rel), name: '⪶' });
    }
    if mode == Mode::Math && name == '' {
        return Some(Symbol { mode: Mode::Math, font: Font::Ams, group: Group::Atom(AtomGroup::Rel), name: '' });
    }
    if mode == Mode::Math && name == '⊴' {
        return Some(Symbol { mode: Mode::Math, font: Font::Ams, group: Group::Atom(AtomGroup::Rel), name: '⊴' });
    }
    if mode == Mode::Math && name == '⊵' {
        return Some(Symbol { mode: Mode::Math, font: Font::Ams, group: Group::Atom(AtomGroup::Rel), name: '⊵' });
    }
    if mode == Mode::Math && name == '↚' {
        return Some(Symbol { mode: Mode::Math, font: Font::Ams, group: Group::Atom(AtomGroup::Rel), name: '↚' });
    }
    if mode == Mode::Math && name == '↛' {
        return Some(Symbol { mode: Mode::Math, font: Font::Ams, group: Group::Atom(AtomGroup::Rel), name: '↛' });
    }
    if mode == Mode::Math && name == '⇍' {
        return Some(Symbol { mode: Mode::Math, font: Font::Ams, group: Group::Atom(AtomGroup::Rel), name: '⇍' });
    }
    if mode == Mode::Math && name == '⇏' {
        return Some(Symbol { mode: Mode::Math, font: Font::Ams, group: Group::Atom(AtomGroup::Rel), name: '⇏' });
    }
    if mode == Mode::Math && name == '↮' {
        return Some(Symbol { mode: Mode::Math, font: Font::Ams, group: Group::Atom(AtomGroup::Rel), name: '↮' });
    }
    if mode == Mode::Math && name == '⇎' {
        return Some(Symbol { mode: Mode::Math, font: Font::Ams, group: Group::Atom(AtomGroup::Rel), name: '⇎' });
    }
    if mode == Mode::Math && name == '△' {
        return Some(Symbol { mode: Mode::Math, font: Font::Main, group: Group::Atom(AtomGroup::Bin), name: '△' });
    }
    if mode == Mode::Math && name == '▽' {
        return Some(Symbol { mode: Mode::Math, font: Font::Main, group: Group::Atom(AtomGroup::Bin), name: '▽' });
    }
    if mode == Mode::Math && name == '◊' {
        return Some(Symbol { mode: Mode::Math, font: Font::Ams, group: Group::NonAtom(NonAtomGroup::TextOrd), name: '◊' });
    }
    if mode == Mode::Math && name == 'Ⓢ' {
        return Some(Symbol { mode: Mode::Math, font: Font::Ams, group: Group::NonAtom(NonAtomGroup::TextOrd), name: 'Ⓢ' });
    }
    if mode == Mode::Math && name == '®' {
        return Some(Symbol { mode: Mode::Math, font: Font::Ams, group: Group::NonAtom(NonAtomGroup::TextOrd), name: '®' });
    }
    if mode == Mode::Text && name == '®' {
        return Some(Symbol { mode: Mode::Text, font: Font::Ams, group: Group::NonAtom(NonAtomGroup::TextOrd), name: '®' });
    }
    if mode == Mode::Math && name == '∡' {
        return Some(Symbol { mode: Mode::Math, font: Font::Ams, group: Group::NonAtom(NonAtomGroup::TextOrd), name: '∡' });
    }
    if mode == Mode::Math && name == '∄' {
        return Some(Symbol { mode: Mode::Math, font: Font::Ams, group: Group::NonAtom(NonAtomGroup::TextOrd), name: '∄' });
    }
    if mode == Mode::Math && name == '℧' {
        return Some(Symbol { mode: Mode::Math, font: Font::Ams, group: Group::NonAtom(NonAtomGroup::TextOrd), name: '℧' });
    }
    if mode == Mode::Math && name == 'Ⅎ' {
        return Some(Symbol { mode: Mode::Math, font: Font::Ams, group: Group::NonAtom(NonAtomGroup::TextOrd), name: 'Ⅎ' });
    }
    if mode == Mode::Math && name == '⅁' {
        return Some(Symbol { mode: Mode::Math, font: Font::Ams, group: Group::NonAtom(NonAtomGroup::TextOrd), name: '⅁' });
    }
    if mode == Mode::Math && name == '‵' {
        return Some(Symbol { mode: Mode::Math, font: Font::Ams, group: Group::NonAtom(NonAtomGroup::TextOrd), name: '‵' });
    }
    if mode == Mode::Math && name == '▲' {
        return Some(Symbol { mode: Mode::Math, font: Font::Ams, group: Group::NonAtom(NonAtomGroup::TextOrd), name: '▲' });
    }
    if mode == Mode::Math && name == '▼' {
        return Some(Symbol { mode: Mode::Math, font: Font::Ams, group: Group::NonAtom(NonAtomGroup::TextOrd), name: '▼' });
    }
    if mode == Mode::Math && name == '■' {
        return Some(Symbol { mode: Mode::Math, font: Font::Ams, group: Group::NonAtom(NonAtomGroup::TextOrd), name: '■' });
    }
    if mode == Mode::Math && name == '⧫' {
        return Some(Symbol { mode: Mode::Math, font: Font::Ams, group: Group::NonAtom(NonAtomGroup::TextOrd), name: '⧫' });
    }
    if mode == Mode::Math && name == '★' {
        return Some(Symbol { mode: Mode::Math, font: Font::Ams, group: Group::NonAtom(NonAtomGroup::TextOrd), name: '★' });
    }
    if mode == Mode::Math && name == '∢' {
        return Some(Symbol { mode: Mode::Math, font: Font::Ams, group: Group::NonAtom(NonAtomGroup::TextOrd), name: '∢' });
    }
    if mode == Mode::Math && name == '∁' {
        return Some(Symbol { mode: Mode::Math, font: Font::Ams, group: Group::NonAtom(NonAtomGroup::TextOrd), name: '∁' });
    }
    if mode == Mode::Math && name == 'ð' {
        return Some(Symbol { mode: Mode::Math, font: Font::Ams, group: Group::NonAtom(NonAtomGroup::TextOrd), name: 'ð' });
    }
    if mode == Mode::Text && name == 'ð' {
        return Some(Symbol { mode: Mode::Text, font: Font::Main, group: Group::NonAtom(NonAtomGroup::TextOrd), name: 'ð' });
    }
    if mode == Mode::Math && name == '╱' {
        return Some(Symbol { mode: Mode::Math, font: Font::Ams, group: Group::NonAtom(NonAtomGroup::TextOrd), name: '╱' });
    }
    if mode == Mode::Math && name == '╲' {
        return Some(Symbol { mode: Mode::Math, font: Font::Ams, group: Group::NonAtom(NonAtomGroup::TextOrd), name: '╲' });
    }
    if mode == Mode::Math && name == '□' {
        return Some(Symbol { mode: Mode::Math, font: Font::Ams, group: Group::NonAtom(NonAtomGroup::TextOrd), name: '□' });
    }
    if mode == Mode::Math && name == '¥' {
        return Some(Symbol { mode: Mode::Math, font: Font::Ams, group: Group::NonAtom(NonAtomGroup::TextOrd), name: '¥' });
    }
    if mode == Mode::Text && name == '¥' {
        return Some(Symbol { mode: Mode::Text, font: Font::Ams, group: Group::NonAtom(NonAtomGroup::TextOrd), name: '¥' });
    }
    if mode == Mode::Math && name == '✓' {
        return Some(Symbol { mode: Mode::Math, font: Font::Ams, group: Group::NonAtom(NonAtomGroup::TextOrd), name: '✓' });
    }
    if mode == Mode::Text && name == '✓' {
        return Some(Symbol { mode: Mode::Text, font: Font::Ams, group: Group::NonAtom(NonAtomGroup::TextOrd), name: '✓' });
    }
    if mode == Mode::Math && name == 'ℶ' {
        return Some(Symbol { mode: Mode::Math, font: Font::Ams, group: Group::NonAtom(NonAtomGroup::TextOrd), name: 'ℶ' });
    }
    if mode == Mode::Math && name == 'ℸ' {
        return Some(Symbol { mode: Mode::Math, font: Font::Ams, group: Group::NonAtom(NonAtomGroup::TextOrd), name: 'ℸ' });
    }
    if mode == Mode::Math && name == 'ℷ' {
        return Some(Symbol { mode: Mode::Math, font: Font::Ams, group: Group::NonAtom(NonAtomGroup::TextOrd), name: 'ℷ' });
    }
    if mode == Mode::Math && name == 'ϝ' {
        return Some(Symbol { mode: Mode::Math, font: Font::Ams, group: Group::NonAtom(NonAtomGroup::TextOrd), name: 'ϝ' });
    }
    None
}

/// One part of the bulk symbol table.
pub open spec fn table_part_4(mode: Mode, name: char) -> Option<Symbol> {
    if mode == Mode::Math && name == 'ϰ' {
        Some(Symbol { mode: Mode::Math, font: Font::Ams, group: Group::NonAtom(NonAtomGroup::TextOrd), name: 'ϰ' })
    } else if mode == Mode::Math && name == '┌' {
        Some(Symbol { mode: Mode::Math, font: Font::Ams, group: Group::Atom(AtomGroup::Open), name: '┌' })
    } else if mode == Mode::Math && name == '┐' {
        Some(Symbol { mode: Mode::Math, font: Font::Ams, group: Group::Atom(AtomGroup::Close), name: '┐' })
    } else if mode == Mode::Math && name == '└' {
        Some(Symbol { mode: Mode::Math, font: Font::Ams, group: Group::Atom(AtomGroup::Open), name: '└' })
    } else if mode == Mode::Math && name == '┘' {
        Some(Symbol { mode: Mode::Math, font: Font::Ams, group: Group::Atom(AtomGroup::Close), name: '┘' })
    } else if mode == Mode::Math && name == '≦' {
        Some(Symbol { mode: Mode::Math, font: Font::Ams, group: Group::Atom(AtomGroup::Rel), name: '≦' })
    } else if mode == Mode::Math && name == '⩽' {
        Some(Symbol { mode: Mode::Math, font: Font::Ams, group: Group::Atom(AtomGroup::Rel), name: '⩽' })
    } else if mode == Mode::Math && name == '⪕' {
        Some(Symbol { mode: Mode::Math, font: Font::Ams, group: Group::Atom(AtomGroup::Rel), name: '⪕' })
    } else if mode == Mode::Math && name == '≲' {
        Some(Symbol { mode: Mode::Math, font: Font::Ams, group: Group::Atom(AtomGroup::Rel), name: '≲' })
    } else if mode == Mode::Math && name == '⪅' {
        Some(Symbol { mode: Mode::Math, font: Font::Ams, group: Group::Atom(AtomGroup::Rel), name: '⪅' })
    } else if mode == Mode::Math && name == '≊' {
        Some(Symbol { mode: Mode::Math, font: Font::Ams, group: Group::Atom(AtomGroup::Rel), name: '≊' })
    } else if mode == Mode::Math && name == '⋖' {
        Some(Symbol { mode: Mode::Math, font: Font::Ams, group: Group::Atom(AtomGroup::Bin), name: '⋖' })
    } else if mode == Mode::Math && name == '⋘' {
        Some(Symbol { mode: Mode::Math, font: Font::Ams, group: Group::Atom(AtomGroup::Rel), name: '⋘' })
    } else if mode == Mode::Math && name == '≶' {
        Some(Symbol { mode: Mode::Math, font: Font::Ams, group: Group::Atom(AtomGroup::Rel), name: '≶' })
    } else if mode == Mode::Math && name == '⋚' {
        Some(Symbol { mode: Mode::Math, font: Font::Ams, group: Group::Atom(AtomGroup::Rel), name: '⋚' })
    } else if mode == Mode::Math && name == '⪋' {
        Some(Symbol { mode: Mode::Math, font: Font::Ams, group: Group::Atom(AtomGroup::Rel), name: '⪋' })
    } else if mode == Mode::Math && name == '≑' {
        Some(Symbol { mode: Mode::Math, font: Font::Ams, group: Group::Atom(AtomGroup::Rel), name: '≑' })
    } else if mode == Mode::Math && name == '≓' {
        Some(Symbol { mode: Mode::Math, font: Font::Ams, group: Group::Atom(AtomGroup::Rel), name: '≓' })
    } else if mode == Mode::Math && name == '≒' {
        Some(Symbol { mode: Mode::Math, font: Font::Ams, group: Group::Atom(AtomGroup::Rel), name: '≒' })
    } else if mode == Mode::Math && name == '∽' {
        Some(Symbol { mode: Mode::Math, font: Font::Ams, group: Group::Atom(AtomGroup::Rel), name: '∽' })
    } else if mode == Mode::Math && name == '⋍' {
        Some(Symbol { mode: Mode::Math, font: Font::Ams, group: Group::Atom(AtomGroup::Rel), name: '⋍' })
    } else if mode == Mode::Math && name == '⫅' {
        Some(Symbol { mode: Mode::Math, font: Font::Ams, group: Group::Atom(AtomGroup::Rel), name: '⫅' })
    } else if mode == Mode::Math && name == '⋐' {
        Some(Symbol { mode: Mode::Math, font: Font::Ams, group: Group::Atom(AtomGroup::Rel), name: '⋐' })
    } else if mode == Mode::Math && name == '⊏' {
        Some(Symbol { mode: Mode::Math, font: Font::Ams, group: Group::Atom(AtomGroup::Rel), name: '⊏' })
    } else if mode == Mode::Math && name == '≼' {
        Some(Symbol { mode: Mode::Math, font: Font::Ams, group: Group::Atom(AtomGroup::Rel), name: '≼' })
    } else if mode == Mode::Math && name == '⋞' {
        Some(Symbol { mode: Mode::Math, font: Font::Ams, group: Group::Atom(AtomGroup::Rel), name: '⋞' })
    } else if mode == Mode::Math && name == '≾' {
        Some(Symbol { mode: Mode::Math, font: Font::Ams, group: Group::Atom(AtomGroup::Rel), name: '≾' })
    } else if mode == Mode::Math && name == '⪷' {
        Some(Symbol { mode: Mode::Math, font: Font::Ams, group: Group::Atom(AtomGroup::Rel), name: '⪷' })
    } else if mode == Mode::Math && name == '⊲' {
        Some(Symbol { mode: Mode::Math, font: Font::Ams, group: Group::Atom(AtomGroup::Bin), name: '⊲' })
    } else if mode == Mode::Math && name == '⊨' {
        Some(Symbol { mode: Mode::Math, font: Font::Main, group: Group::Atom(AtomGroup::Rel), name: '⊨' })
    } else if mode == Mode::Math && name == '⊪' {
        Some(Symbol { mode: Mode::Math, font: Font::Ams, group: Group::Atom(AtomGroup::Rel), name: '⊪' })
    } else if mode == Mode::Math && name == '≏' {
        Some(Symbol { mode: Mode::Math, font: Font::Ams, group: Group::Atom(AtomGroup::Rel), name: '≏' })
    } else if mode == Mode::Math && name == '≎' {
        Some(Symbol { mode: Mode::Math, font: Font::Ams, group: Group::Atom(AtomGroup::Rel), name: '≎' })
    } else if mode == Mode::Math && name == '≧' {
        Some(Symbol { mode: Mode::Math, font: Font::Ams, group: Group::Atom(AtomGroup::Rel), name: '≧' })
    } else if mode == Mode::Math && name == '⩾' {
        Some(Symbol { mode: Mode::Math, font: Font::Ams, group: Group::Atom(AtomGroup::Rel), name: '⩾' })
    } else if mode == Mode::Math && name == '⪖' {
        Some(Symbol { mode: Mode::Math, font: Font::Ams, group: Group::Atom(AtomGroup::Rel), name: '⪖' })
    } else if mode == Mode::Math && name == '≳' {
        Some(Symbol { mode: Mode::Math, font: Font::Ams, group: Group::Atom(AtomGroup::Rel), name: '≳' })
    } else if mode == Mode::Math && name == '⪆' {
        Some(Symbol { mode: Mode::Math, font: Font::Ams, group: Group::Atom(AtomGroup::Rel), name: '⪆' })
    } else if mode == Mode::Math && name == '⋗' {
        Some(Symbol { mode: Mode::Math, font: Font::Ams, group: Group::Atom(AtomGroup::Bin), name: '⋗' })
    } else if mode == Mode::Math && name == '⋙' {
        Some(Symbol { mode: Mode::Math, font: Font::Ams, group: Group::Atom(AtomGroup::Rel), name: '⋙' })
    } else if mode == Mode::Math && name == '≷' {
        Some(Symbol { mode: Mode::Math, font: Font::Ams, group: Group::Atom(AtomGroup::Rel), name: '≷' })
    } else if mode == Mode::Math && name == '⋛' {
        Some(Symbol { mode: Mode::Math, font: Font::Ams, group: Group::Atom(AtomGroup::Rel), name: '⋛' })
    } else if mode == Mode::Math && name == '⪌' {
        Some(Symbol { mode: Mode::Math, font: Font::Ams, group: Group::Atom(AtomGroup::Rel), name: '⪌' })
    } else if mode == Mode::Math && name == '≖' {
        Some(Symbol { mode: Mode::Math, font: Font::Ams, group: Group::Atom(AtomGroup::Rel), name: '≖' })
    } else if mode == Mode::Math && name == '≗' {
        Some(Symbol { mode: Mode::Math, font: Font::Ams, group: Group::Atom(AtomGroup::Rel), name: '≗' })
    } else {
        None
    }
}

fn lookup_part_4(mode: Mode, name: char) -> (r: Option<Symbol>)
    ensures
        r == table_part_4(mode, name),
{
    if mode == Mode::Math && name == 'ϰ' {
        return Some(Symbol { mode: Mode::Math, font: Font::Ams, group: Group::NonAtom(NonAtomGroup::TextOrd), name: 'ϰ' });
    }
    if mode == Mode::Math && name == '┌' {
        return Some(Symbol { mode: Mode::Math, font: Font::Ams, group: Group::Atom(AtomGroup::Open), name: '┌' });
    }
    if mode == Mode::Math && name == '┐' {
        return Some(Symbol { mode: Mode::Math, font: Font::Ams, group: Group::Atom(AtomGroup::Close), name: '┐' });
    }
    if mode == Mode::Math && name == '└' {
        return Some(Symbol { mode: Mode::Math, font: Font::Ams, group: Group::Atom(AtomGroup::Open), name: '└' });
    }
    if mode == Mode::Math && name == '┘' {
        return Some(Symbol { mode: Mode::Math, font: Font::Ams, group: Group::Atom(AtomGroup::Close), name: '┘' });
    }
    if mode == Mode::Math && name == '≦' {
        return Some(Symbol { mode: Mode::Math, font: Font::Ams, group: Group::Atom(AtomGroup::Rel), name: '≦' });
    }
    if mode == Mode::Math && name == '⩽' {
        return Some(Symbol { mode: Mode::Math, font: Font::Ams, group: Group::Atom(AtomGroup::Rel), name: '⩽' });
    }
    if mode == Mode::Math && name == '⪕' {
        return Some(Symbol { mode: Mode::Math, font: Font::Ams, group: Group::Atom(AtomGroup::Rel), name: '⪕' });
    }
    if mode == Mode::Math && name == '≲' {
        return Some(Symbol { mode: Mode::Math, font: Font::Ams, group: Group::Atom(AtomGroup::Rel), name: '≲' });
    }
    if mode == Mode::Math && name == '⪅' {
        return Some(Symbol { mode: Mode::Math, font: Font::Ams, group: Group::Atom(AtomGroup::Rel), name: '⪅' });
    }
    if mode == Mode::Math && name == '≊' {
        return Some(Symbol { mode: Mode::Math, font: Font::Ams, group: Group::Atom(AtomGroup::Rel), name: '≊' });
    }
    if mode == Mode::Math && name == '⋖' {
        return Some(Symbol { mode: Mode::Math, font: Font::Ams, group: Group::Atom(AtomGroup::Bin), name: '⋖' });
    }
    if mode == Mode::Math && name == '⋘' {
        return Some(Symbol { mode: Mode::Math, font: Font::Ams, group: Group::Atom(AtomGroup::Rel), name: '⋘' });
    }
    if mode == Mode::Math && name == '≶' {
        return Some(Symbol { mode: Mode::Math, font: Font::Ams, group: Group::Atom(AtomGroup::Rel), name: '≶' });
    }
    if mode == Mode::Math && name == '⋚' {
        return Some(Symbol { mode: Mode::Math, font: Font::Ams, group: Group::Atom(AtomGroup::Rel), name: '⋚' });
    }
    if mode == Mode::Math && name == '⪋' {
        return Some(Symbol { mode: Mode::Math, font: Font::Ams, group: Group::Atom(AtomGroup::Rel), name: '⪋' });
    }
    if mode == Mode::Math && name == '≑' {
        return Some(Symbol { mode: Mode::Math, font: Font::Ams, group: Group::Atom(AtomGroup::Rel), name: '≑' });
    }
    if mode == Mode::Math && name == '≓' {
        return Some(Symbol { mode: Mode::Math, font: Font::Ams, group: Group::Atom(AtomGroup::Rel), name: '≓' });
    }
    if mode == Mode::Math && name == '≒' {
        return Some(Symbol { mode: Mode::Math, font: Font::Ams, group: Group::Atom(AtomGroup::Rel), name: '≒' });
    }
    if mode == Mode::Math && name == '∽' {
        return Some(Symbol { mode: Mode::Math, font: Font::Ams, group: Group::Atom(AtomGroup::Rel), name: '∽' });
    }
    if mode == Mode::Math && name == '⋍' {
        return Some(Symbol { mode: Mode::Math, font: Font::Ams, group: Group::Atom(AtomGroup::Rel), name: '⋍' });
    }
    if mode == Mode::Math && name == '⫅' {
        return Some(Symbol { mode: Mode::Math, font: Font::Ams, group: Group::Atom(AtomGroup::Rel), name: '⫅' });
    }
    if mode == Mode::Math && name == '⋐' {
        return Some(Symbol { mode: Mode::Math, font: Font::Ams, group: Group::Atom(AtomGroup::Rel), name: '⋐' });
    }
    if mode == Mode::Math && name == '⊏' {
        return Some(Symbol { mode: Mode::Math, font: Font::Ams, group: Group::Atom(AtomGroup::Rel), name: '⊏' });
    }
    if mode == Mode::Math && name == '≼' {
        return Some(Symbol { mode: Mode::Math, font: Font::Ams, group: Group::Atom(AtomGroup::Rel), name: '≼' });
    }
    if mode == Mode::Math && name == '⋞' {
        return Some(Symbol { mode: Mode::Math, font: Font::Ams, group: Group::Atom(AtomGroup::Rel), name: '⋞' });
    }
    if mode == Mode::Math && name == '≾' {
        return Some(Symbol { mode: Mode::Math, font: Font::Ams, group: Group::Atom(AtomGroup::Rel), name: '≾' });
    }
    if mode == Mode::Math && name == '⪷' {
        return Some(Symbol { mode: Mode::Math, font: Font::Ams, group: Group::Atom(AtomGroup::Rel), name: '⪷' });
    }
    if mode == Mode::Math && name == '⊲' {
        return Some(Symbol { mode: Mode::Math, font: Font::Ams, group: Group::Atom(AtomGroup::Bin), name: '⊲' });
    }
    if mode == Mode::Math && name == '⊨' {
        return Some(Symbol { mode: Mode::Math, font: Font::Main, group: Group::Atom(AtomGroup::Rel), name: '⊨' });
    }
    if mode == Mode::Math && name == '⊪' {
        return Some(Symbol { mode: Mode::Math, font: Font::Ams, group: Group::Atom(AtomGroup::Rel), name: '⊪' });
    }
    if mode == Mode::Math && name == '≏' {
        return Some(Symbol { mode: Mode::Math, font: Font::Ams, group: Group::Atom(AtomGroup::Rel), name: '≏' });
    }
    if mode == Mode::Math && name == '≎' {
        return Some(Symbol { mode: Mode::Math, font: Font::Ams, group: Group::Atom(AtomGroup::Rel), name: '≎' });
    }
    if mode == Mode::Math && name == '≧' {
        return Some(Symbol { mode: Mode::Math, font: Font::Ams, group: Group::Atom(AtomGroup::Rel), name: '≧' });
    }
    if mode == Mode::Math && name == '⩾' {
        return Some(Symbol { mode: Mode::Math, font: Font::Ams, group: Group::Atom(AtomGroup::Rel), name: '⩾' });
    }
    if mode == Mode::Math && name == '⪖' {
        return Some(Symbol { mode: Mode::Math, font: Font::Ams, group: Group::Atom(AtomGroup::Rel), name: '⪖' });
    }
    if mode == Mode::Math && name == '≳' {
        return Some(Symbol { mode: Mode::Math, font: Font::Ams, group: Group::Atom(AtomGroup::Rel), name: '≳' });
    }
    if mode == Mode::Math && name == '⪆' {
        return Some(Symbol { mode: Mode::Math, font: Font::Ams, group: Group::Atom(AtomGroup::Rel), name: '⪆' });
    }
    if mode == Mode::Math && name == '⋗' {
        return Some(Symbol { mode: Mode::Math, font: Font::Ams, group: Group::Atom(AtomGroup::Bin), name: '⋗' });
    }
    if mode == Mode::Math && name == '⋙' {
        return Some(Symbol { mode: Mode::Math, font: Font::Ams, group: Group::Atom(AtomGroup::Rel), name: '⋙' });
    }
    if mode == Mode::Math && name == '≷' {
        return Some(Symbol { mode: Mode::Math, font: Font::Ams, group: Group::Atom(AtomGroup::Rel), name: '≷' });
    }
    if mode == Mode::Math && name == '⋛' {
        return Some(Symbol { mode: Mode::Math, font: Font::Ams, group: Group::Atom(AtomGroup::Rel), name: '⋛' });
    }
    if mode == Mode::Math && name == '⪌' {
        return Some(Symbol { mode: Mode::Math, font: Font::Ams, group: Group::Atom(AtomGroup::Rel), name: '⪌' });
    }
    if mode == Mode::Math && name == '≖' {
        return Some(Symbol { mode: Mode::Math, font: Font::Ams, group: Group::Atom(AtomGroup::Rel), name: '≖' });
    }
    if mode == Mode::Math && name == '≗' {
        return Some(Symbol { mode: Mode::Math, font: Font::Ams, group: Group::Atom(AtomGroup::Rel), name: '≗' });
    }
    None
}

/// One part of the bulk symbol table.
pub open spec fn table_part_5(mode: Mode, name: char) -> Option<Symbol> {
    if mode == Mode::Math && name == '≜' {
        Some(Symbol { mode: Mode::Math, font: Font::Ams, group: Group::Atom(AtomGroup::Rel), name: '≜' })
    } else if mode == Mode::Math && name == '≈' {
        Some(Symbol { mode: Mode::Math, font: Font::Main, group: Group::Atom(AtomGroup::Rel), name: '≈' })
    } else if mode == Mode::Math && name == '⫆' {
        Some(Symbol { mode: Mode::Math, font: Font::Ams, group: Group::Atom(AtomGroup::Rel), name: '⫆' })
    } else if mode == Mode::Math && name == '⋑' {
        Some(Symbol { mode: Mode::Math, font: Font::Ams, group: Group::Atom(AtomGroup::Rel), name: '⋑' })
    } else if mode == Mode::Math && name == '⊐' {
        Some(Symbol { mode: Mode::Math, font: Font::Ams, group: Group::Atom(AtomGroup::Rel), name: '⊐' })
    } else if mode == Mode::Math && name == '≽' {
        Some(Symbol { mode: Mode::Math, font: Font::Ams, group: Group::Atom(AtomGroup::Rel), name: '≽' })
    } else if mode == Mode::Math && name == '⋟' {
        Some(Symbol { mode: Mode::Math, font: Font::Ams, group: Group::Atom(AtomGroup::Rel), name: '⋟' })
    } else if mode == Mode::Math && name == '≿' {
        Some(Symbol { mode: Mode::Math, font: Font::Ams, group: Group::Atom(AtomGroup::Rel), name: '≿' })
    } else if mode == Mode::Math && name == '⪸' {
        Some(Symbol { mode: Mode::Math, font: Font::Ams, group: Group::Atom(AtomGroup::Rel), name: '⪸' })
    } else if mode == Mode::Math && name == '⊳' {
        Some(Symbol { mode: Mode::Math, font: Font::Ams, group: Group::Atom(AtomGroup::Bin), name: '⊳' })
    } else if mode == Mode::Math && name == '⊩' {
        Some(Symbol { mode: Mode::Math, font: Font::Ams, group: Group::Atom(AtomGroup::Rel), name: '⊩' })
    } else if mode == Mode::Math && name == '≬' {
        Some(Symbol { mode: Mode::Math, font: Font::Ams, group: Group::Atom(AtomGroup::Rel), name: '≬' })
    } else if mode == Mode::Math && name == '⋔' {
        Some(Symbol { mode: Mode::Math, font: Font::Ams, group: Group::Atom(AtomGroup::Rel), name: '⋔' })
    } else if mode == Mode::Math && name == '◀' {
        Some(Symbol { mode: Mode::Math, font: Font::Ams, group: Group::Atom(AtomGroup::Rel), name: '◀' })
    } else if mode == Mode::Math && name == '∴' {
        Some(Symbol { mode: Mode::Math, font: Font::Ams, group: Group::Atom(AtomGroup::Rel), name: '∴' })
    } else if mode == Mode::Math && name == '∍' {
        Some(Symbol { mode: Mode::Math, font: Font::Ams, group: Group::Atom(AtomGroup::Rel), name: '∍' })
    } else if mode == Mode::Math && name == '▶' {
        Some(Symbol { mode: Mode::Math, font: Font::Ams, group: Group::Atom(AtomGroup::Rel), name: '▶' })
    } else if mode == Mode::Math && name == '∵' {
        Some(Symbol { mode: Mode::Math, font: Font::Ams, group: Group::Atom(AtomGroup::Rel), name: '∵' })
    } else if mode == Mode::Math && name == '≂' {
        Some(Symbol { mode: Mode::Math, font: Font::Ams, group: Group::Atom(AtomGroup::Rel), name: '≂' })
    } else if mode == Mode::Math && name == '∔' {
        Some(Symbol { mode: Mode::Math, font: Font::Ams, group: Group::Atom(AtomGroup::Bin), name: '∔' })
    } else if mode == Mode::Math && name == '∖' {
        Some(Symbol { mode: Mode::Math, font: Font::Main, group: Group::Atom(AtomGroup::Bin), name: '∖' })
    } else if mode == Mode::Math && name == '⋒' {
        Some(Symbol { mode: Mode::Math, font: Font::Ams, group: Group::Atom(AtomGroup::Bin), name: '⋒' })
    } else if mode == Mode::Math && name == '⋓' {
        Some(Symbol { mode: Mode::Math, font: Font::Ams, group: Group::Atom(AtomGroup::Bin), name: '⋓' })
    } else if mode == Mode::Math && name == '⩞' {
        Some(Symbol { mode: Mode::Math, font: Font::Ams, group: Group::Atom(AtomGroup::Bin), name: '⩞' })
    } else if mode == Mode::Math && name == '⊟' {
        Some(Symbol { mode: Mode::Math, font: Font::Ams, group: Group::Atom(AtomGroup::Bin), name: '⊟' })
    } else if mode == Mode::Math && name == '⊞' {
        Some(Symbol { mode: Mode::Math, font: Font::Ams, group: Group::Atom(AtomGroup::Bin), name: '⊞' })
    } else if mode == Mode::Math && name == '⋇' {
        Some(Symbol { mode: Mode::Math, font: Font::Ams, group: Group::Atom(AtomGroup::Bin), name: '⋇' })
    } else if mode == Mode::Math && name == '⋉' {
        Some(Symbol { mode: Mode::Math, font: Font::Ams, group: Group::Atom(AtomGroup::Bin), name: '⋉' })
    } else if mode == Mode::Math && name == '⋊' {
        Some(Symbol { mode: Mode::Math, font: Font::Ams, group: Group::Atom(AtomGroup::Bin), name: '⋊' })
    } else if mode == Mode::Math && name == '⋋' {
        Some(Symbol { mode: Mode::Math, font: Font::Ams, group: Group::Atom(AtomGroup::Bin), name: '⋋' })
    } else if mode == Mode::Math && name == '⋌' {
        Some(Symbol { mode: Mode::Math, font: Font::Ams, group: Group::Atom(AtomGroup::Bin), name: '⋌' })
    } else if mode == Mode::Math && name == '⋏' {
        Some(Symbol { mode: Mode::Math, font: Font::Ams, group: Group::Atom(AtomGroup::Bin), name: '⋏' })
    } else if mode == Mode::Math && name == '⋎' {
        Some(Symbol { mode: Mode::Math, font: Font::Ams, group: Group::Atom(AtomGroup::Bin), name: '⋎' })
    } else if mode == Mode::Math && name == '⊝' {
        Some(Symbol { mode: Mode::Math, font: Font::Ams, group: Group::Atom(AtomGroup::Bin), name: '⊝' })
    } else if mode == Mode::Math && name == '⊛' {
        Some(Symbol { mode: Mode::Math, font: Font::Ams, group: Group::Atom(AtomGroup::Bin), name: '⊛' })
    } else if mode == Mode::Math && name == '⊺' {
        Some(Symbol { mode: Mode::Math, font: Font::Ams, group: Group::Atom(AtomGroup::Bin), name: '⊺' })
    } else if mode == Mode::Math && name == '⊠' {
        Some(Symbol { mode: Mode::Math, font: Font::Ams, group: Group::Atom(AtomGroup::Bin), name: '⊠' })
    } else if mode == Mode::Math && name == '⇢' {
        Some(Symbol { mode: Mode::Math, font: Font::Ams, group: Group::Atom(AtomGroup::Rel), name: '⇢' })
    } else if mode == Mode::Math && name == '⇠' {
        Some(Symbol { mode: Mode::Math, font: Font::Ams, group: Group::Atom(AtomGroup::Rel), name: '⇠' })
    } else if mode == Mode::Math && name == '⇇' {
        Some(Symbol { mode: Mode::Math, font: Font::Ams, group: Group::Atom(AtomGroup::Rel), name: '⇇' })
    } else if mode == Mode::Math && name == '⇆' {
        Some(Symbol { mode: Mode::Math, font: Font::Ams, group: Group::Atom(AtomGroup::Rel), name: '⇆' })
    } else if mode == Mode::Math && name == '⇚' {
        Some(Symbol { mode: Mode::Math, font: Font::Ams, group: Group::Atom(AtomGroup::Rel), name: '⇚' })
    } else if mode == Mode::Math && name == '↞' {
        Some(Symbol { mode: Mode::Math, font: Font::Ams, group: Group::Atom(AtomGroup::Rel), name: '↞' })
    } else if mode == Mode::Math && name == '↢' {
        Some(Symbol { mode: Mode::Math, font: Font::Ams, group: Group::Atom(AtomGroup::Rel), name: '↢' })
    } else if mode == Mode::Math && name == '↫' {
        Some(Symbol { mode: Mode::Math, font: Font::Ams, group: Group::Atom(AtomGroup::Rel), name: '↫' })
    } else {
        None
    }
}

fn lookup_part_5(mode: Mode, name: char) -> (r: Option<Symbol>)
    ensures
        r == table_part_5(mode, name),
{
    if mode == Mode::Math && name == '≜' {
        return Some(Symbol { mode: Mode::Math, font: Font::Ams, group: Group::Atom(AtomGroup::Rel), name: '≜' });
    }
    if mode == Mode::Math && name == '≈' {
        return Some(Symbol { mode: Mode::Math, font: Font::Main, group: Group::Atom(AtomGroup::Rel), name: '≈' });
    }
    if mode == Mode::Math && name == '⫆' {
        return Some(Symbol { mode: Mode::Math, font: Font::Ams, group: Group::Atom(AtomGroup::Rel), name: '⫆' });
    }
    if mode == Mode::Math && name == '⋑' {
        return Some(Symbol { mode: Mode::Math, font: Font::Ams, group: Group::Atom(AtomGroup::Rel), name: '⋑' });
    }
    if mode == Mode::Math && name == '⊐' {
        return Some(Symbol { mode: Mode::Math, font: Font::Ams, group: Group::Atom(AtomGroup::Rel), name: '⊐' });
    }
    if mode == Mode::Math && name == '≽' {
        return Some(Symbol { mode: Mode::Math, font: Font::Ams, group: Group::Atom(AtomGroup::Rel), name: '≽' });
    }
    if mode == Mode::Math && name == '⋟' {
        return Some(Symbol { mode: Mode::Math, font: Font::Ams, group: Group::Atom(AtomGroup::Rel), name: '⋟' });
    }
    if mode == Mode::Math && name == '≿' {
        return Some(Symbol { mode: Mode::Math, font: Font::Ams, group: Group::Atom(AtomGroup::Rel), name: '≿' });
    }
    if mode == Mode::Math && name == '⪸' {
        return Some(Symbol { mode: Mode::Math, font: Font::Ams, group: Group::Atom(AtomGroup::Rel), name: '⪸' });
    }
    if mode == Mode::Math && name == '⊳' {
        return Some(Symbol { mode: Mode::Math, font: Font::Ams, group: Group::Atom(AtomGroup::Bin), name: '⊳' });
    }
    if mode == Mode::Math && name == '⊩' {
        return Some(Symbol { mode: Mode::Math, font: Font::Ams, group: Group::Atom(AtomGroup::Rel), name: '⊩' });
    }
    if mode == Mode::Math && name == '≬' {
        return Some(Symbol { mode: Mode::Math, font: Font::Ams, group: Group::Atom(AtomGroup::Rel), name: '≬' });
    }
    if mode == Mode::Math && name == '⋔' {
        return Some(Symbol { mode: Mode::Math, font: Font::Ams, group: Group::Atom(AtomGroup::Rel), name: '⋔' });
    }
    if mode == Mode::Math && name == '◀' {
        return Some(Symbol { mode: Mode::Math, font: Font::Ams, group: Group::Atom(AtomGroup::Rel), name: '◀' });
    }
    if mode == Mode::Math && name == '∴' {
        return Some(Symbol { mode: Mode::Math, font: Font::Ams, group: Group::Atom(AtomGroup::Rel), name: '∴' });
    }
    if mode == Mode::Math && name == '∍' {
        return Some(Symbol { mode: Mode::Math, font: Font::Ams, group: Group::Atom(AtomGroup::Rel), name: '∍' });
    }
    if mode == Mode::Math && name == '▶' {
        return Some(Symbol { mode: Mode::Math, font: Font::Ams, group: Group::Atom(AtomGroup::Rel), name: '▶' });
    }
    if mode == Mode::Math && name == '∵' {
        return Some(Symbol { mode: Mode::Math, font: Font::Ams, group: Group::Atom(AtomGroup::Rel), name: '∵' });
    }
    if mode == Mode::Math && name == '≂' {
        return Some(Symbol { mode: Mode::Math, font: Font::Ams, group: Group::Atom(AtomGroup::Rel), name: '≂' });
    }
    if mode == Mode::Math && name == '∔' {
        return Some(Symbol { mode: Mode::Math, font: Font::Ams, group: Group::Atom(AtomGroup::Bin), name: '∔' });
    }
    if mode == Mode::Math && name == '∖' {
        return Some(Symbol { mode: Mode::Math, font: Font::Main, group: Group::Atom(AtomGroup::Bin), name: '∖' });
    }
    if mode == Mode::Math && name == '⋒' {
        return Some(Symbol { mode: Mode::Math, font: Font::Ams, group: Group::Atom(AtomGroup::Bin), name: '⋒' });
    }
    if mode == Mode::Math && name == '⋓' {
        return Some(Symbol { mode: Mode::Math, font: Font::Ams, group: Group::Atom(AtomGroup::Bin), name: '⋓' });
    }
    if mode == Mode::Math && name == '⩞' {
        return Some(Symbol { mode: Mode::Math, font: Font::Ams, group: Group::Atom(AtomGroup::Bin), name: '⩞' });
    }
    if mode == Mode::Math && name == '⊟' {
        return Some(Symbol { mode: Mode::Math, font: Font::Ams, group: Group::Atom(AtomGroup::Bin), name: '⊟' });
    }
    if mode == Mode::Math && name == '⊞' {
        return Some(Symbol { mode: Mode::Math, font: Font::Ams, group: Group::Atom(AtomGroup::Bin), name: '⊞' });
    }
    if mode == Mode::Math && name == '⋇' {
        return Some(Symbol { mode: Mode::Math, font: Font::Ams, group: Group::Atom(AtomGroup::Bin), name: '⋇' });
    }
    if mode == Mode::Math && name == '⋉' {
        return Some(Symbol { mode: Mode::Math, font: Font::Ams, group: Group::Atom(AtomGroup::Bin), name: '⋉' });
    }
    if mode == Mode::Math && name == '⋊' {
        return Some(Symbol { mode: Mode::Math, font: Font::Ams, group: Group::Atom(AtomGroup::Bin), name: '⋊' });
    }
    if mode == Mode::Math && name == '⋋' {
        return Some(Symbol { mode: Mode::Math, font: Font::Ams, group: Group::Atom(AtomGroup::Bin), name: '⋋' });
    }
    if mode == Mode::Math && name == '⋌' {
        return Some(Symbol { mode: Mode::Math, font: Font::Ams, group: Group::Atom(AtomGroup::Bin), name: '⋌' });
    }
    if mode == Mode::Math && name == '⋏' {
        return Some(Symbol { mode: Mode::Math, font: Font::Ams, group: Group::Atom(AtomGroup::Bin), name: '⋏' });
    }
    if mode == Mode::Math && name == '⋎' {
        return Some(Symbol { mode: Mode::Math, font: Font::Ams, group: Group::Atom(AtomGroup::Bin), name: '⋎' });
    }
    if mode == Mode::Math && name == '⊝' {
        return Some(Symbol { mode: Mode::Math, font: Font::Ams, group: Group::Atom(AtomGroup::Bin), name: '⊝' });
    }
    if mode == Mode::Math && name == '⊛' {
        return Some(Symbol { mode: Mode::Math, font: Font::Ams, group: Group::Atom(AtomGroup::Bin), name: '⊛' });
    }
    if mode == Mode::Math && name == '⊺' {
        return Some(Symbol { mode: Mode::Math, font: Font::Ams, group: Group::Atom(AtomGroup::Bin), name: '⊺' });
    }
    if mode == Mode::Math && name == '⊠' {
        return Some(Symbol { mode: Mode::Math, font: Font::Ams, group: Group::Atom(AtomGroup::Bin), name: '⊠' });
    }
    if mode == Mode::Math && name == '⇢' {
        return Some(Symbol { mode: Mode::Math, font: Font::Ams, group: Group::Atom(AtomGroup::Rel), name: '⇢' });
    }
    if mode == Mode::Math && name == '⇠' {
        return Some(Symbol { mode: Mode::Math, font: Font::Ams, group: Group::Atom(AtomGroup::Rel), name: '⇠' });
    }
    if mode == Mode::Math && name == '⇇' {
        return Some(Symbol { mode: Mode::Math, font: Font::Ams, group: Group::Atom(AtomGroup::Rel), name: '⇇' });
    }
    if mode == Mode::Math && name == '⇆' {
        return Some(Symbol { mode: Mode::Math, font: Font::Ams, group: Group::Atom(AtomGroup::Rel), name: '⇆' });
    }
    if mode == Mode::Math && name == '⇚' {
        return Some(Symbol { mode: Mode::Math, font: Font::Ams, group: Group::Atom(AtomGroup::Rel), name: '⇚' });
    }
    if mode == Mode::Math && name == '↞' {
        return Some(Symbol { mode: Mode::Math, font: Font::Ams, group: Group::Atom(AtomGroup::Rel), name: '↞' });
    }
    if mode == Mode::Math && name == '↢' {
        return Some(Symbol { mode: Mode::Math, font: Font::Ams, group: Group::Atom(AtomGroup::Rel), name: '↢' });
    }
    if mode == Mode::Math && name == '↫' {
        return Some(Symbol { mode: Mode::Math, font: Font::Ams, group: Group::Atom(AtomGroup::Rel), name: '↫' });
    }
    None
}

/// One part of the bulk symbol table.
pub open spec fn table_part_6(mode: Mode, name: char) -> Option<Symbol> {
    if mode == Mode::Math && name == '⇋' {
        Some(Symbol { mode: Mode::Math, font: Font::Ams, group: Group::Atom(AtomGroup::Rel), name: '⇋' })
    } else if mode == Mode::Math && name == '↶' {
        Some(Symbol { mode: Mode::Math, font: Font::Ams, group: Group::Atom(AtomGroup::Rel), name: '↶' })
    } else if mode == Mode::Math && name == '↺' {
        Some(Symbol { mode: Mode::Math, font: Font::Ams, group: Group::Atom(AtomGroup::Rel), name: '↺' })
    } else if mode == Mode::Math && name == '↰' {
        Some(Symbol { mode: Mode::Math, font: Font::Ams, group: Group::Atom(AtomGroup::Rel), name: '↰' })
    } else if mode == Mode::Math && name == '⇈' {
        Some(Symbol { mode: Mode::Math, font: Font::Ams, group: Group::Atom(AtomGroup::Rel), name: '⇈' })
    } else if mode == Mode::Math && name == '↿' {
        Some(Symbol { mode: Mode::Math, font: Font::Ams, group: Group::Atom(AtomGroup::Rel), name: '↿' })
    } else if mode == Mode::Math && name == '⇃' {
        Some(Symbol { mode: Mode::Math, font: Font::Ams, group: Group::Atom(AtomGroup::Rel), name: '⇃' })
    } else if mode == Mode::Math && name == '⊶' {
        Some(Symbol { mode: Mode::Math, font: Font::Main, group: Group::Atom(AtomGroup::Rel), name: '⊶' })
    } else if mode == Mode::Math && name == '⊷' {
        Some(Symbol { mode: Mode::Math, font: Font::Main, group: Group::Atom(AtomGroup::Rel), name: '⊷' })
    } else if mode == Mode::Math && name == '⊸' {
        Some(Symbol { mode: Mode::Math, font: Font::Ams, group: Group::Atom(AtomGroup::Rel), name: '⊸' })
    } else if mode == Mode::Math && name == '↭' {
        Some(Symbol { mode: Mode::Math, font: Font::Ams, group: Group::Atom(AtomGroup::Rel), name: '↭' })
    } else if mode == Mode::Math && name == '⇉' {
        Some(Symbol { mode: Mode::Math, font: Font::Ams, group: Group::Atom(AtomGroup::Rel), name: '⇉' })
    } else if mode == Mode::Math && name == '⇄' {
        Some(Symbol { mode: Mode::Math, font: Font::Ams, group: Group::Atom(AtomGroup::Rel), name: '⇄' })
    } else if mode == Mode::Math && name == '↠' {
        Some(Symbol { mode: Mode::Math, font: Font::Ams, group: Group::Atom(AtomGroup::Rel), name: '↠' })
    } else if mode == Mode::Math && name == '↣' {
        Some(Symbol { mode: Mode::Math, font: Font::Ams, group: Group::Atom(AtomGroup::Rel), name: '↣' })
    } else if mode == Mode::Math && name == '↬' {
        Some(Symbol { mode: Mode::Math, font: Font::Ams, group: Group::Atom(AtomGroup::Rel), name: '↬' })
    } else if mode == Mode::Math && name == '↷' {
        Some(Symbol { mode: Mode::Math, font: Font::Ams, group: Group::Atom(AtomGroup::Rel), name: '↷' })
    } else if mode == Mode::Math && name == '↻' {
        Some(Symbol { mode: Mode::Math, font: Font::Ams, group: Group::Atom(AtomGroup::Rel), name: '↻' })
    } else if mode == Mode::Math && name == '↱' {
        Some(Symbol { mode: Mode::Math, font: Font::Ams, group: Group::Atom(AtomGroup::Rel), name: '↱' })
    } else if mode == Mode::Math && name == '⇊' {
        Some(Symbol { mode: Mode::Math, font: Font::Ams, group: Group::Atom(AtomGroup::Rel), name: '⇊' })
    } else if mode == Mode::Math && name == '↾' {
        Some(Symbol { mode: Mode::Math, font: Font::Ams, group: Group::Atom(AtomGroup::Rel), name: '↾' })
    } else if mode == Mode::Math && name == '⇂' {
        Some(Symbol { mode: Mode::Math, font: Font::Ams, group: Group::Atom(AtomGroup::Rel), name: '⇂' })
    } else if mode == Mode::Math && name == '⇝' {
        Some(Symbol { mode: Mode::Math, font: Font::Ams, group: Group::Atom(AtomGroup::Rel), name: '⇝' })
    } else if mode == Mode::Math && name == '⇛' {
        Some(Symbol { mode: Mode::Math, font: Font::Ams, group: Group::Atom(AtomGroup::Rel), name: '⇛' })
    } else if mode == Mode::Math && name == '‘' {
        Some(Symbol { mode: Mode::Math, font: Font::Main, group: Group::NonAtom(NonAtomGroup::TextOrd), name: '‘' })
    } else if mode == Mode::Math && name == '$' {
        Some(Symbol { mode: Mode::Math, font: Font::Main, group: Group::NonAtom(NonAtomGroup::TextOrd), name: '$' })
    } else if mode == Mode::Text && name == '$' {
        Some(Symbol { mode: Mode::Text, font: Font::Main, group: Group::NonAtom(NonAtomGroup::TextOrd), name: '$' })
    } else if mode == Mode::Math && name == '%' {
        Some(Symbol { mode: Mode::Math, font: Font::Main, group: Group::NonAtom(NonAtomGroup::TextOrd), name: '%' })
    } else if mode == Mode::Text && name == '%' {
        Some(Symbol { mode: Mode::Text, font: Font::Main, group: Group::NonAtom(NonAtomGroup::TextOrd), name: '%' })
    } else if mode == Mode::Math && name == '_' {
        Some(Symbol { mode: Mode::Math, font: Font::Main, group: Group::NonAtom(NonAtomGroup::TextOrd), name: '_' })
    } else if mode == Mode::Text && name == '_' {
        Some(Symbol { mode: Mode::Text, font: Font::Main, group: Group::NonAtom(NonAtomGroup::TextOrd), name: '_' })
    } else if mode == Mode::Math && name == '∠' {
        Some(Symbol { mode: Mode::Math, font: Font::Main, group: Group::NonAtom(NonAtomGroup::TextOrd), name: '∠' })
    } else if mode == Mode::Math && name == '∞' {
        Some(Symbol { mode: Mode::Math, font: Font::Main, group: Group::NonAtom(NonAtomGroup::TextOrd), name: '∞' })
    } else if mode == Mode::Math && name == '′' {
        Some(Symbol { mode: Mode::Math, font: Font::Main, group: Group::NonAtom(NonAtomGroup::TextOrd), name: '′' })
    } else if mode == Mode::Math && name == 'Γ' {
        Some(Symbol { mode: Mode::Math, font: Font::Main, group: Group::NonAtom(NonAtomGroup::TextOrd), name: 'Γ' })
    } else if mode == Mode::Math && name == 'Δ' {
        Some(Symbol { mode: Mode::Math, font: Font::Main, group: Group::NonAtom(NonAtomGroup::TextOrd), name: 'Δ' })
    } else if mode == Mode::Math && name == 'Θ' {
        Some(Symbol { mode: Mode::Math, font: Font::Main, group: Group::NonAtom(NonAtomGroup::TextOrd), name: 'Θ' })
    } else if mode == Mode::Math && name == 'Λ' {
        Some(Symbol { mode: Mode::Math, font: Font::Main, group: Group::NonAtom(NonAtomGroup::TextOrd), name: 'Λ' })
    } else if mode == Mode::Math && name == 'Ξ' {
        Some(Symbol { mode: Mode::Math, font: Font::Main, group: Group::NonAtom(NonAtomGroup::TextOrd), name: 'Ξ' })
    } else if mode == Mode::Math && name == 'Π' {
        Some(Symbol { mode: Mode::Math, font: Font::Main, group: Group::NonAtom(NonAtomGroup::TextOrd), name: 'Π' })
    } else if mode == Mode::Math && name == 'Σ' {
        Some(Symbol { mode: Mode::Math, font: Font::Main, group: Group::NonAtom(NonAtomGroup::TextOrd), name: 'Σ' })
    } else if mode == Mode::Math && name == 'Υ' {
        Some(Symbol { mode: Mode::Math, font: Font::Main, group: Group::NonAtom(NonAtomGroup::TextOrd), name: 'Υ' })
    } else if mode == Mode::Math && name == 'Φ' {
        Some(Symbol { mode: Mode::Math, font: Font::Main, group: Group::NonAtom(NonAtomGroup::TextOrd), name: 'Φ' })
    } else if mode == Mode::Math && name == 'Ψ' {
        Some(Symbol { mode: Mode::Math, font: Font::Main, group: Group::NonAtom(NonAtomGroup::TextOrd), name: 'Ψ' })
    } else if mode == Mode::Math && name == 'Ω' {
        Some(Symbol { mode: Mode::Math, font: Font::Main, group: Group::NonAtom(NonAtomGroup::TextOrd), name: 'Ω' })
    } else {
        None
    }
}

fn lookup_part_6(mode: Mode, name: char) -> (r: Option<Symbol>)
    ensures
        r == table_part_6(mode, name),
{
    if mode == Mode::Math && name == '⇋' {
        return Some(Symbol { mode: Mode::Math, font: Font::Ams, group: Group::Atom(AtomGroup::Rel), name: '⇋' });
    }
    if mode == Mode::Math && name == '↶' {
        return Some(Symbol { mode: Mode::Math, font: Font::Ams, group: Group::Atom(AtomGroup::Rel), name: '↶' });
    }
    if mode == Mode::Math && name == '↺' {
        return Some(Symbol { mode: Mode::Math, font: Font::Ams, group: Group::Atom(AtomGroup::Rel), name: '↺' });
    }
    if mode == Mode::Math && name == '↰' {
        return Some(Symbol { mode: Mode::Math, font: Font::Ams, group: Group::Atom(AtomGroup::Rel), name: '↰' });
    }
    if mode == Mode::Math && name == '⇈' {
        return Some(Symbol { mode: Mode::Math, font: Font::Ams, group: Group::Atom(AtomGroup::Rel), name: '⇈' });
    }
    if mode == Mode::Math && name == '↿' {
        return Some(Symbol { mode: Mode::Math, font: Font::Ams, group: Group::Atom(AtomGroup::Rel), name: '↿' });
    }
    if mode == Mode::Math && name == '⇃' {
        return Some(Symbol { mode: Mode::Math, font: Font::Ams, group: Group::Atom(AtomGroup::Rel), name: '⇃' });
    }
    if mode == Mode::Math && name == '⊶' {
        return Some(Symbol { mode: Mode::Math, font: Font::Main, group: Group::Atom(AtomGroup::Rel), name: '⊶' });
    }
    if mode == Mode::Math && name == '⊷' {
        return Some(Symbol { mode: Mode::Math, font: Font::Main, group: Group::Atom(AtomGroup::Rel), name: '⊷' });
    }
    if mode == Mode::Math && name == '⊸' {
        return Some(Symbol { mode: Mode::Math, font: Font::Ams, group: Group::Atom(AtomGroup::Rel), name: '⊸' });
    }
    if mode == Mode::Math && name == '↭' {
        return Some(Symbol { mode: Mode::Math, font: Font::Ams, group: Group::Atom(AtomGroup::Rel), name: '↭' });
    }
    if mode == Mode::Math && name == '⇉' {
        return Some(Symbol { mode: Mode::Math, font: Font::Ams, group: Group::Atom(AtomGroup::Rel), name: '⇉' });
    }
    if mode == Mode::Math && name == '⇄' {
        return Some(Symbol { mode: Mode::Math, font: Font::Ams, group: Group::Atom(AtomGroup::Rel), name: '⇄' });
    }
    if mode == Mode::Math && name == '↠' {
        return Some(Symbol { mode: Mode::Math, font: Font::Ams, group: Group::Atom(AtomGroup::Rel), name: '↠' });
    }
    if mode == Mode::Math && name == '↣' {
        return Some(Symbol { mode: Mode::Math, font: Font::Ams, group: Group::Atom(AtomGroup::Rel), name: '↣' });
    }
    if mode == Mode::Math && name == '↬' {
        return Some(Symbol { mode: Mode::Math, font: Font::Ams, group: Group::Atom(AtomGroup::Rel), name: '↬' });
    }
    if mode == Mode::Math && name == '↷' {
        return Some(Symbol { mode: Mode::Math, font: Font::Ams, group: Group::Atom(AtomGroup::Rel), name: '↷' });
    }
    if mode == Mode::Math && name == '↻' {
        return Some(Symbol { mode: Mode::Math, font: Font::Ams, group: Group::Atom(AtomGroup::Rel), name: '↻' });
    }
    if mode == Mode::Math && name == '↱' {
        return Some(Symbol { mode: Mode::Math, font: Font::Ams, group: Group::Atom(AtomGroup::Rel), name: '↱' });
    }
    if mode == Mode::Math && name == '⇊' {
        return Some(Symbol { mode: Mode::Math, font: Font::Ams, group: Group::Atom(AtomGroup::Rel), name: '⇊' });
    }
    if mode == Mode::Math && name == '↾' {
        return Some(Symbol { mode: Mode::Math, font: Font::Ams, group: Group::Atom(AtomGroup::Rel), name: '↾' });
    }
    if mode == Mode::Math && name == '⇂' {
        return Some(Symbol { mode: Mode::Math, font: Font::Ams, group: Group::Atom(AtomGroup::Rel), name: '⇂' });
    }
    if mode == Mode::Math && name == '⇝' {
        return Some(Symbol { mode: Mode::Math, font: Font::Ams, group: Group::Atom(AtomGroup::Rel), name: '⇝' });
    }
    if mode == Mode::Math && name == '⇛' {
        return Some(Symbol { mode: Mode::Math, font: Font::Ams, group: Group::Atom(AtomGroup::Rel), name: '⇛' });
    }
    if mode == Mode::Math && name == '‘' {
        return Some(Symbol { mode: Mode::Math, font: Font::Main, group: Group::NonAtom(NonAtomGroup::TextOrd), name: '‘' });
    }
    if mode == Mode::Math && name == '$' {
        return Some(Symbol { mode: Mode::Math, font: Font::Main, group: Group::NonAtom(NonAtomGroup::TextOrd), name: '$' });
    }
    if mode == Mode::Text && name == '$' {
        return Some(Symbol { mode: Mode::Text, font: Font::Main, group: Group::NonAtom(NonAtomGroup::TextOrd), name: '$' });
    }
    if mode == Mode::Math && name == '%' {
        return Some(Symbol { mode: Mode::Math, font: Font::Main, group: Group::NonAtom(NonAtomGroup::TextOrd), name: '%' });
    }
    if mode == Mode::Text && name == '%' {
        return Some(Symbol { mode: Mode::Text, font: Font::Main, group: Group::NonAtom(NonAtomGroup::TextOrd), name: '%' });
    }
    if mode == Mode::Math && name == '_' {
        return Some(Symbol { mode: Mode::Math, font: Font::Main, group: Group::NonAtom(NonAtomGroup::TextOrd), name: '_' });
    }
    if mode == Mode::Text && name == '_' {
        return Some(Symbol { mode: Mode::Text, font: Font::Main, group: Group::NonAtom(NonAtomGroup::TextOrd), name: '_' });
    }
    if mode == Mode::Math && name == '∠' {
        return Some(Symbol { mode: Mode::Math, font: Font::Main, group: Group::NonAtom(NonAtomGroup::TextOrd), name: '∠' });
    }
    if mode == Mode::Math && name == '∞' {
        return Some(Symbol { mode: Mode::Math, font: Font::Main, group: Group::NonAtom(NonAtomGroup::TextOrd), name: '∞' });
    }
    if mode == Mode::Math && name == '′' {
        return Some(Symbol { mode: Mode::Math, font: Font::Main, group: Group::NonAtom(NonAtomGroup::TextOrd), name: '′' });
    }
    if mode == Mode::Math && name == 'Γ' {
        return Some(Symbol { mode: Mode::Math, font: Font::Main, group: Group::NonAtom(NonAtomGroup::TextOrd), name: 'Γ' });
    }
    if mode == Mode::Math && name == 'Δ' {
        return Some(Symbol { mode: Mode::Math, font: Font::Main, group: Group::NonAtom(NonAtomGroup::TextOrd), name: 'Δ' });
    }
    if mode == Mode::Math && name == 'Θ' {
        return Some(Symbol { mode: Mode::Math, font: Font::Main, group: Group::NonAtom(NonAtomGroup::TextOrd), name: 'Θ' });
    }
    if mode == Mode::Math && name == 'Λ' {
        return Some(Symbol { mode: Mode::Math, font: Font::Main, group: Group::NonAtom(NonAtomGroup::TextOrd), name: 'Λ' });
    }
    if mode == Mode::Math && name == 'Ξ' {
        return Some(Symbol { mode: Mode::Math, font: Font::Main, group: Group::NonAtom(NonAtomGroup::TextOrd), name: 'Ξ' });
    }
    if mode == Mode::Math && name == 'Π' {
        return Some(Symbol { mode: Mode::Math, font: Font::Main, group: Group::NonAtom(NonAtomGroup::TextOrd), name: 'Π' });
    }
    if mode == Mode::Math && name == 'Σ' {
        return Some(Symbol { mode: Mode::Math, font: Font::Main, group: Group::NonAtom(NonAtomGroup::TextOrd), name: 'Σ' });
    }
    if mode == Mode::Math && name == 'Υ' {
        return Some(Symbol { mode: Mode::Math, font: Font::Main, group: Group::NonAtom(NonAtomGroup::TextOrd), name: 'Υ' });
    }
    if mode == Mode::Math && name == 'Φ' {
        return Some(Symbol { mode: Mode::Math, font: Font::Main, group: Group::NonAtom(NonAtomGroup::TextOrd), name: 'Φ' });
    }
    if mode == Mode::Math && name == 'Ψ' {
        return Some(Symbol { mode: Mode::Math, font: Font::Main, group: Group::NonAtom(NonAtomGroup::TextOrd), name: 'Ψ' });
    }
    if mode == Mode::Math && name == 'Ω' {
        return Some(Symbol { mode: Mode::Math, font: Font::Main, group: Group::NonAtom(NonAtomGroup::TextOrd), name: 'Ω' });
    }
    None
}

/// One part of the bulk symbol table.
pub open spec fn table_part_7(mode: Mode, name: char) -> Option<Symbol> {
    if mode == Mode::Math && name == 'A' {
        Some(Symbol { mode: Mode::Math, font: Font::Main, group: Group::NonAtom(NonAtomGroup::MathOrd), name: 'A' })
    } else if mode == Mode::Math && name == 'B' {
        Some(Symbol { mode: Mode::Math, font: Font::Main, group: Group::NonAtom(NonAtomGroup::MathOrd), name: 'B' })
    } else if mode == Mode::Math && name == 'E' {
        Some(Symbol { mode: Mode::Math, font: Font::Main, group: Group::NonAtom(NonAtomGroup::MathOrd), name: 'E' })
    } else if mode == Mode::Math && name == 'Z' {
        Some(Symbol { mode: Mode::Math, font: Font::Main, group: Group::NonAtom(NonAtomGroup::MathOrd), name: 'Z' })
    } else if mode == Mode::Math && name == 'H' {
        Some(Symbol { mode: Mode::Math, font: Font::Main, group: Group::NonAtom(NonAtomGroup::MathOrd), name: 'H' })
    } else if mode == Mode::Math && name == 'I' {
        Some(Symbol { mode: Mode::Math, font: Font::Main, group: Group::NonAtom(NonAtomGroup::MathOrd), name: 'I' })
    } else if mode == Mode::Math && name == 'K' {
        Some(Symbol { mode: Mode::Math, font: Font::Main, group: Group::NonAtom(NonAtomGroup::MathOrd), name: 'K' })
    } else if mode == Mode::Math && name == 'M' {
        Some(Symbol { mode: Mode::Math, font: Font::Main, group: Group::NonAtom(NonAtomGroup::MathOrd), name: 'M' })
    } else if mode == Mode::Math && name == 'N' {
        Some(Symbol { mode: Mode::Math, font: Font::Main, group: Group::NonAtom(NonAtomGroup::MathOrd), name: 'N' })
    } else if mode == Mode::Math && name == 'O' {
        Some(Symbol { mode: Mode::Math, font: Font::Main, group: Group::NonAtom(NonAtomGroup::MathOrd), name: 'O' })
    } else if mode == Mode::Math && name == 'P' {
        Some(Symbol { mode: Mode::Math, font: Font::Main, group: Group::NonAtom(NonAtomGroup::MathOrd), name: 'P' })
    } else if mode == Mode::Math && name == 'T' {
        Some(Symbol { mode: Mode::Math, font: Font::Main, group: Group::NonAtom(NonAtomGroup::MathOrd), name: 'T' })
    } else if mode == Mode::Math && name == 'X' {
        Some(Symbol { mode: Mode::Math, font: Font::Main, group: Group::NonAtom(NonAtomGroup::MathOrd), name: 'X' })
    } else if mode == Mode::Math && name == '¬' {
        Some(Symbol { mode: Mode::Math, font: Font::Main, group: Group::NonAtom(NonAtomGroup::TextOrd), name: '¬' })
    } else if mode == Mode::Math && name == '⊤' {
        Some(Symbol { mode: Mode::Math, font: Font::Main, group: Group::NonAtom(NonAtomGroup::TextOrd), name: '⊤' })
    } else if mode == Mode::Math && name == '∅' {
        Some(Symbol { mode: Mode::Math, font: Font::Ams, group: Group::NonAtom(NonAtomGroup::TextOrd), name: '∅' })
    } else if mode == Mode::Math && name == 'α' {
        Some(Symbol { mode: Mode::Math, font: Font::Main, group: Group::NonAtom(NonAtomGroup::MathOrd), name: 'α' })
    } else if mode == Mode::Math && name == 'β' {
        Some(Symbol { mode: Mode::Math, font: Font::Main, group: Group::NonAtom(NonAtomGroup::MathOrd), name: 'β' })
    } else if mode == Mode::Math && name == 'γ' {
        Some(Symbol { mode: Mode::Math, font: Font::Main, group: Group::NonAtom(NonAtomGroup::MathOrd), name: 'γ' })
    } else if mode == Mode::Math && name == 'δ' {
        Some(Symbol { mode: Mode::Math, font: Font::Main, group: Group::NonAtom(NonAtomGroup::MathOrd), name: 'δ' })
    } else if mode == Mode::Math && name == 'ϵ' {
        Some(Symbol { mode: Mode::Math, font: Font::Main, group: Group::NonAtom(NonAtomGroup::MathOrd), name: 'ϵ' })
    } else if mode == Mode::Math && name == 'ζ' {
        Some(Symbol { mode: Mode::Math, font: Font::Main, group: Group::NonAtom(NonAtomGroup::MathOrd), name: 'ζ' })
    } else if mode == Mode::Math && name == 'η' {
        Some(Symbol { mode: Mode::Math, font: Font::Main, group: Group::NonAtom(NonAtomGroup::MathOrd), name: 'η' })
    } else if mode == Mode::Math && name == 'θ' {
        Some(Symbol { mode: Mode::Math, font: Font::Main, group: Group::NonAtom(NonAtomGroup::MathOrd), name: 'θ' })
    } else if mode == Mode::Math && name == 'ι' {
        Some(Symbol { mode: Mode::Math, font: Font::Main, group: Group::NonAtom(NonAtomGroup::MathOrd), name: 'ι' })
    } else if mode == Mode::Math && name == 'κ' {
        Some(Symbol { mode: Mode::Math, font: Font::Main, group: Group::NonAtom(NonAtomGroup::MathOrd), name: 'κ' })
    } else if mode == Mode::Math && name == 'λ' {
        Some(Symbol { mode: Mode::Math, font: Font::Main, group: Group::NonAtom(NonAtomGroup::MathOrd), name: 'λ' })
    } else if mode == Mode::Math && name == 'μ' {
        Some(Symbol { mode: Mode::Math, font: Font::Main, group: Group::NonAtom(NonAtomGroup::MathOrd), name: 'μ' })
    } else if mode == Mode::Math && name == 'ν' {
        Some(Symbol { mode: Mode::Math, font: Font::Main, group: Group::NonAtom(NonAtomGroup::MathOrd), name: 'ν' })
    } else if mode == Mode::Math && name == 'ξ' {
        Some(Symbol { mode: Mode::Math, font: Font::Main, group: Group::NonAtom(NonAtomGroup::MathOrd), name: 'ξ' })
    } else if mode == Mode::Math && name == 'ο' {
        Some(Symbol { mode: Mode::Math, font: Font::Main, group: Group::NonAtom(NonAtomGroup::MathOrd), name: 'ο' })
    } else if mode == Mode::Math && name == 'π' {
        Some(Symbol { mode: Mode::Math, font: Font::Main, group: Group::NonAtom(NonAtomGroup::MathOrd), name: 'π' })
    } else if mode == Mode::Math && name == 'ρ' {
        Some(Symbol { mode: Mode::Math, font: Font::Main, group: Group::NonAtom(NonAtomGroup::MathOrd), name: 'ρ' })
    } else if mode == Mode::Math && name == 'σ' {
        Some(Symbol { mode: Mode::Math, font: Font::Main, group: Group::NonAtom(NonAtomGroup::MathOrd), name: 'σ' })
    } else if mode == Mode::Math && name == 'τ' {
        Some(Symbol { mode: Mode::Math, font: Font::Main, group: Group::NonAtom(NonAtomGroup::MathOrd), name: 'τ' })
    } else if mode == Mode::Math && name == 'υ' {
        Some(Symbol { mode: Mode::Math, font: Font::Main, group: Group::NonAtom(NonAtomGroup::MathOrd), name: 'υ' })
    } else if mode == Mode::Math && name == 'ϕ' {
        Some(Symbol { mode: Mode::Math, font: Font::Main, group: Group::NonAtom(NonAtomGroup::MathOrd), name: 'ϕ' })
    } else if mode == Mode::Math && name == 'χ' {
        Some(Symbol { mode: Mode::Math, font: Font::Main, group: Group::NonAtom(NonAtomGroup::MathOrd), name: 'χ' })
    } else if mode == Mode::Math && name == 'ψ' {
        Some(Symbol { mode: Mode::Math, font: Font::Main, group: Group::NonAtom(NonAtomGroup::MathOrd), name: 'ψ' })
    } else if mode == Mode::Math && name == 'ω' {
        Some(Symbol { mode: Mode::Math, font: Font::Main, group: Group::NonAtom(NonAtomGroup::MathOrd), name: 'ω' })
    } else if mode == Mode::Math && name == 'ε' {
        Some(Symbol { mode: Mode::Math, font: Font::Main, group: Group::NonAtom(NonAtomGroup::MathOrd), name: 'ε' })
    } else if mode == Mode::Math && name == 'ϑ' {
        Some(Symbol { mode: Mode::Math, font: Font::Main, group: Group::NonAtom(NonAtomGroup::MathOrd), name: 'ϑ' })
    } else if mode == Mode::Math && name == 'ϖ' {
        Some(Symbol { mode: Mode::Math, font: Font::Main, group: Group::NonAtom(NonAtomGroup::MathOrd), name: 'ϖ' })
    } else if mode == Mode::Math && name == 'ϱ' {
        Some(Symbol { mode: Mode::Math, font: Font::Main, group: Group::NonAtom(NonAtomGroup::MathOrd), name: 'ϱ' })
    } else if mode == Mode::Math && name == 'ς' {
        Some(Symbol { mode: Mode::Math, font: Font::Main, group: Group::NonAtom(NonAtomGroup::MathOrd), name: 'ς' })
    } else {
        None
    }
}

fn lookup_part_7(mode: Mode, name: char) -> (r: Option<Symbol>)
    ensures
        r == table_part_7(mode, name),
{
    if mode == Mode::Math && name == 'A' {
        return Some(Symbol { mode: Mode::Math, font: Font::Main, group: Group::NonAtom(NonAtomGroup::MathOrd), name: 'A' });
    }
    if mode == Mode::Math && name == 'B' {
        return Some(Symbol { mode: Mode::Math, font: Font::Main, group: Group::NonAtom(NonAtomGroup::MathOrd), name: 'B' });
    }
    if mode == Mode::Math && name == 'E' {
        return Some(Symbol { mode: Mode::Math, font: Font::Main, group: Group::NonAtom(NonAtomGroup::MathOrd), name: 'E' });
    }
    if mode == Mode::Math && name == 'Z' {
        return Some(Symbol { mode: Mode::Math, font: Font::Main, group: Group::NonAtom(NonAtomGroup::MathOrd), name: 'Z' });
    }
    if mode == Mode::Math && name == 'H' {
        return Some(Symbol { mode: Mode::Math, font: Font::Main, group: Group::NonAtom(NonAtomGroup::MathOrd), name: 'H' });
    }
    if mode == Mode::Math && name == 'I' {
        return Some(Symbol { mode: Mode::Math, font: Font::Main, group: Group::NonAtom(NonAtomGroup::MathOrd), name: 'I' });
    }
    if mode == Mode::Math && name == 'K' {
        return Some(Symbol { mode: Mode::Math, font: Font::Main, group: Group::NonAtom(NonAtomGroup::MathOrd), name: 'K' });
    }
    if mode == Mode::Math && name == 'M' {
        return Some(Symbol { mode: Mode::Math, font: Font::Main, group: Group::NonAtom(NonAtomGroup::MathOrd), name: 'M' });
    }
    if mode == Mode::Math && name == 'N' {
        return Some(Symbol { mode: Mode::Math, font: Font::Main, group: Group::NonAtom(NonAtomGroup::MathOrd), name: 'N' });
    }
    if mode == Mode::Math && name == 'O' {
        return Some(Symbol { mode: Mode::Math, font: Font::Main, group: Group::NonAtom(NonAtomGroup::MathOrd), name: 'O' });
    }
    if mode == Mode::Math && name == 'P' {
        return Some(Symbol { mode: Mode::Math, font: Font::Main, group: Group::NonAtom(NonAtomGroup::MathOrd), name: 'P' });
    }
    if mode == Mode::Math && name == 'T' {
        return Some(Symbol { mode: Mode::Math, font: Font::Main, group: Group::NonAtom(NonAtomGroup::MathOrd), name: 'T' });
    }
    if mode == Mode::Math && name == 'X' {
        return Some(Symbol { mode: Mode::Math, font: Font::Main, group: Group::NonAtom(NonAtomGroup::MathOrd), name: 'X' });
    }
    if mode == Mode::Math && name == '¬' {
        return Some(Symbol { mode: Mode::Math, font: Font::Main, group: Group::NonAtom(NonAtomGroup::TextOrd), name: '¬' });
    }
    if mode == Mode::Math && name == '⊤' {
        return Some(Symbol { mode: Mode::Math, font: Font::Main, group: Group::NonAtom(NonAtomGroup::TextOrd), name: '⊤' });
    }
    if mode == Mode::Math && name == '∅' {
        return Some(Symbol { mode: Mode::Math, font: Font::Ams, group: Group::NonAtom(NonAtomGroup::TextOrd), name: '∅' });
    }
    if mode == Mode::Math && name == 'α' {
        return Some(Symbol { mode: Mode::Math, font: Font::Main, group: Group::NonAtom(NonAtomGroup::MathOrd), name: 'α' });
    }
    if mode == Mode::Math && name == 'β' {
        return Some(Symbol { mode: Mode::Math, font: Font::Main, group: Group::NonAtom(NonAtomGroup::MathOrd), name: 'β' });
    }
    if mode == Mode::Math && name == 'γ' {
        return Some(Symbol { mode: Mode::Math, font: Font::Main, group: Group::NonAtom(NonAtomGroup::MathOrd), name: 'γ' });
    }
    if mode == Mode::Math && name == 'δ' {
        return Some(Symbol { mode: Mode::Math, font: Font::Main, group: Group::NonAtom(NonAtomGroup::MathOrd), name: 'δ' });
    }
    if mode == Mode::Math && name == 'ϵ' {
        return Some(Symbol { mode: Mode::Math, font: Font::Main, group: Group::NonAtom(NonAtomGroup::MathOrd), name: 'ϵ' });
    }
    if mode == Mode::Math && name == 'ζ' {
        return Some(Symbol { mode: Mode::Math, font: Font::Main, group: Group::NonAtom(NonAtomGroup::MathOrd), name: 'ζ' });
    }
    if mode == Mode::Math && name == 'η' {
        return Some(Symbol { mode: Mode::Math, font: Font::Main, group: Group::NonAtom(NonAtomGroup::MathOrd), name: 'η' });
    }
    if mode == Mode::Math && name == 'θ' {
        return Some(Symbol { mode: Mode::Math, font: Font::Main, group: Group::NonAtom(NonAtomGroup::MathOrd), name: 'θ' });
    }
    if mode == Mode::Math && name == 'ι' {
        return Some(Symbol { mode: Mode::Math, font: Font::Main, group: Group::NonAtom(NonAtomGroup::MathOrd), name: 'ι' });
    }
    if mode == Mode::Math && name == 'κ' {
        return Some(Symbol { mode: Mode::Math, font: Font::Main, group: Group::NonAtom(NonAtomGroup::MathOrd), name: 'κ' });
    }
    if mode == Mode::Math && name == 'λ' {
        return Some(Symbol { mode: Mode::Math, font: Font::Main, group: Group::NonAtom(NonAtomGroup::MathOrd), name: 'λ' });
    }
    if mode == Mode::Math && name == 'μ' {
        return Some(Symbol { mode: Mode::Math, font: Font::Main, group: Group::NonAtom(NonAtomGroup::MathOrd), name: 'μ' });
    }
    if mode == Mode::Math && name == 'ν' {
        return Some(Symbol { mode: Mode::Math, font: Font::Main, group: Group::NonAtom(NonAtomGroup::MathOrd), name: 'ν' });
    }
    if mode == Mode::Math && name == 'ξ' {
        return Some(Symbol { mode: Mode::Math, font: Font::Main, group: Group::NonAtom(NonAtomGroup::MathOrd), name: 'ξ' });
    }
    if mode == Mode::Math && name == 'ο' {
        return Some(Symbol { mode: Mode::Math, font: Font::Main, group: Group::NonAtom(NonAtomGroup::MathOrd), name: 'ο' });
    }
    if mode == Mode::Math && name == 'π' {
        return Some(Symbol { mode: Mode::Math, font: Font::Main, group: Group::NonAtom(NonAtomGroup::MathOrd), name: 'π' });
    }
    if mode == Mode::Math && name == 'ρ' {
        return Some(Symbol { mode: Mode::Math, font: Font::Main, group: Group::NonAtom(NonAtomGroup::MathOrd), name: 'ρ' });
    }
    if mode == Mode::Math && name == 'σ' {
        return Some(Symbol { mode: Mode::Math, font: Font::Main, group: Group::NonAtom(NonAtomGroup::MathOrd), name: 'σ' });
    }
    if mode == Mode::Math && name == 'τ' {
        return Some(Symbol { mode: Mode::Math, font: Font::Main, group: Group::NonAtom(NonAtomGroup::MathOrd), name: 'τ' });
    }
    if mode == Mode::Math && name == 'υ' {
        return Some(Symbol { mode: Mode::Math, font: Font::Main, group: Group::NonAtom(NonAtomGroup::MathOrd), name: 'υ' });
    }
    if mode == Mode::Math && name == 'ϕ' {
        return Some(Symbol { mode: Mode::Math, font: Font::Main, group: Group::NonAtom(NonAtomGroup::MathOrd), name: 'ϕ' });
    }
    if mode == Mode::Math && name == 'χ' {
        return Some(Symbol { mode: Mode::Math, font: Font::Main, group: Group::NonAtom(NonAtomGroup::MathOrd), name: 'χ' });
    }
    if mode == Mode::Math && name == 'ψ' {
        return Some(Symbol { mode: Mode::Math, font: Font::Main, group: Group::NonAtom(NonAtomGroup::MathOrd), name: 'ψ' });
    }
    if mode == Mode::Math && name == 'ω' {
        return Some(Symbol { mode: Mode::Math, font: Font::Main, group: Group::NonAtom(NonAtomGroup::MathOrd), name: 'ω' });
    }
    if mode == Mode::Math && name == 'ε' {
        return Some(Symbol { mode: Mode::Math, font: Font::Main, group: Group::NonAtom(NonAtomGroup::MathOrd), name: 'ε' });
    }
    if mode == Mode::Math && name == 'ϑ' {
        return Some(Symbol { mode: Mode::Math, font: Font::Main, group: Group::NonAtom(NonAtomGroup::MathOrd), name: 'ϑ' });
    }
    if mode == Mode::Math && name == 'ϖ' {
        return Some(Symbol { mode: Mode::Math, font: Font::Main, group: Group::NonAtom(NonAtomGroup::MathOrd), name: 'ϖ' });
    }
    if mode == Mode::Math && name == 'ϱ' {
        return Some(Symbol { mode: Mode::Math, font: Font::Main, group: Group::NonAtom(NonAtomGroup::MathOrd), name: 'ϱ' });
    }
    if mode == Mode::Math && name == 'ς' {
        return Some(Symbol { mode: Mode::Math, font: Font::Main, group: Group::NonAtom(NonAtomGroup::MathOrd), name: 'ς' });
    }
    None
}

/// One part of the bulk symbol table.
pub open spec fn table_part_8(mode: Mode, name: char) -> Option<Symbol> {
    if mode == Mode::Math && name == 'φ' {
        Some(Symbol { mode: Mode::Math, font: Font::Main, group: Group::NonAtom(NonAtomGroup::MathOrd), name: 'φ' })
    } else if mode == Mode::Math && name == '+' {
        Some(Symbol { mode: Mode::Math, font: Font::Main, group: Group::Atom(AtomGroup::Bin), name: '+' })
    } else if mode == Mode::Math && name == '−' {
        Some(Symbol { mode: Mode::Math, font: Font::Main, group: Group::Atom(AtomGroup::Bin), name: '−' })
    } else if mode == Mode::Math && name == '∘' {
        Some(Symbol { mode: Mode::Math, font: Font::Main, group: Group::Atom(AtomGroup::Bin), name: '∘' })
    } else if mode == Mode::Math && name == '÷' {
        Some(Symbol { mode: Mode::Math, font: Font::Main, group: Group::Atom(AtomGroup::Bin), name: '÷' })
    } else if mode == Mode::Math && name == '±' {
        Some(Symbol { mode: Mode::Math, font: Font::Main, group: Group::Atom(AtomGroup::Bin), name: '±' })
    } else if mode == Mode::Math && name == '×' {
        Some(Symbol { mode: Mode::Math, font: Font::Main, group: Group::Atom(AtomGroup::Bin), name: '×' })
    } else if mode == Mode::Math && name == '∩' {
        Some(Symbol { mode: Mode::Math, font: Font::Main, group: Group::Atom(AtomGroup::Bin), name: '∩' })
    } else if mode == Mode::Math && name == '∪' {
        Some(Symbol { mode: Mode::Math, font: Font::Main, group: Group::Atom(AtomGroup::Bin), name: '∪' })
    } else if mode == Mode::Math && name == '∧' {
        Some(Symbol { mode: Mode::Math, font: Font::Main, group: Group::Atom(AtomGroup::Bin), name: '∧' })
    } else if mode == Mode::Math && name == '∨' {
        Some(Symbol { mode: Mode::Math, font: Font::Main, group: Group::Atom(AtomGroup::Bin), name: '∨' })
    } else if mode == Mode::Math && name == '√' {
        Some(Symbol { mode: Mode::Math, font: Font::Main, group: Group::NonAtom(NonAtomGroup::TextOrd), name: '√' })
    } else if mode == Mode::Math && name == '⟨' {
        Some(Symbol { mode: Mode::Math, font: Font::Main, group: Group::Atom(AtomGroup::Open), name: '⟨' })
    } else if mode == Mode::Math && name == '?' {
        Some(Symbol { mode: Mode::Math, font: Font::Main, group: Group::Atom(AtomGroup::Close), name: '?' })
    } else if mode == Mode::Math && name == '!' {
        Some(Symbol { mode: Mode::Math, font: Font::Main, group: Group::Atom(AtomGroup::Close), name: '!' })
    } else if mode == Mode::Math && name == '⟩' {
        Some(Symbol { mode: Mode::Math, font: Font::Main, group: Group::Atom(AtomGroup::Close), name: '⟩' })
    } else if mode == Mode::Math && name == '=' {
        Some(Symbol { mode: Mode::Math, font: Font::Main, group: Group::Atom(AtomGroup::Rel), name: '=' })
    } else if mode == Mode::Math && name == ':' {
        Some(Symbol { mode: Mode::Math, font: Font::Main, group: Group::Atom(AtomGroup::Rel), name: ':' })
    } else if mode == Mode::Math && name == '≅' {
        Some(Symbol { mode: Mode::Math, font: Font::Main, group: Group::Atom(AtomGroup::Rel), name: '≅' })
    } else if mode == Mode::Math && name == '≥' {
        Some(Symbol { mode: Mode::Math, font: Font::Main, group: Group::Atom(AtomGroup::Rel), name: '≥' })
    } else if mode == Mode::Math && name == '←' {
        Some(Symbol { mode: Mode::Math, font: Font::Main, group: Group::Atom(AtomGroup::Rel), name: '←' })
    } else if mode == Mode::Math && name == '>' {
        Some(Symbol { mode: Mode::Math, font: Font::Main, group: Group::Atom(AtomGroup::Rel), name: '>' })
    } else if mode == Mode::Math && name == '∈' {
        Some(Symbol { mode: Mode::Math, font: Font::Main, group: Group::Atom(AtomGroup::Rel), name: '∈' })
    } else if mode == Mode::Math && name == '' {
        Some(Symbol { mode: Mode::Math, font: Font::Main, group: Group::Atom(AtomGroup::Rel), name: '' })
    } else if mode == Mode::Math && name == '⊂' {
        Some(Symbol { mode: Mode::Math, font: Font::Main, group: Group::Atom(AtomGroup::Rel), name: '⊂' })
    } else if mode == Mode::Math && name == '⊃' {
        Some(Symbol { mode: Mode::Math, font: Font::Main, group: Group::Atom(AtomGroup::Rel), name: '⊃' })
    } else if mode == Mode::Math && name == '⊆' {
        Some(Symbol { mode: Mode::Math, font: Font::Main, group: Group::Atom(AtomGroup::Rel), name: '⊆' })
    } else if mode == Mode::Math && name == '⊇' {
        Some(Symbol { mode: Mode::Math, font: Font::Main, group: Group::Atom(AtomGroup::Rel), name: '⊇' })
    } else if mode == Mode::Math && name == '⊈' {
        Some(Symbol { mode: Mode::Math, font: Font::Ams, group: Group::Atom(AtomGroup::Rel), name: '⊈' })
    } else if mode == Mode::Math && name == '⊉' {
        Some(Symbol { mode: Mode::Math, font: Font::Ams, group: Group::Atom(AtomGroup::Rel), name: '⊉' })
    } else if mode == Mode::Math && name == '≤' {
        Some(Symbol { mode: Mode::Math, font: Font::Main, group: Group::Atom(AtomGroup::Rel), name: '≤' })
    } else if mode == Mode::Math && name == '<' {
        Some(Symbol { mode: Mode::Math, font: Font::Main, group: Group::Atom(AtomGroup::Rel), name: '<' })
    } else if mode == Mode::Math && name == '→' {
        Some(Symbol { mode: Mode::Math, font: Font::Main, group: Group::Atom(AtomGroup::Rel), name: '→' })
    } else if mode == Mode::Math && name == '≱' {
        Some(Symbol { mode: Mode::Math, font: Font::Ams, group: Group::Atom(AtomGroup::Rel), name: '≱' })
    } else if mode == Mode::Math && name == '≰' {
        Some(Symbol { mode: Mode::Math, font: Font::Ams, group: Group::Atom(AtomGroup::Rel), name: '≰' })
    } else if mode == Mode::Math && name == ' ' {
        Some(Symbol { mode: Mode::Math, font: Font::Main, group: Group::NonAtom(NonAtomGroup::Spacing), name: ' ' })
    } else if mode == Mode::Text && name == ' ' {
        Some(Symbol { mode: Mode::Text, font: Font::Main, group: Group::NonAtom(NonAtomGroup::Spacing), name: ' ' })
    } else if mode == Mode::Math && name == ',' {
        Some(Symbol { mode: Mode::Math, font: Font::Main, group: Group::Atom(AtomGroup::Punct), name: ',' })
    } else if mode == Mode::Math && name == ';' {
        Some(Symbol { mode: Mode::Math, font: Font::Main, group: Group::Atom(AtomGroup::Punct), name: ';' })
    } else if mode == Mode::Math && name == '⊼' {
        Some(Symbol { mode: Mode::Math, font: Font::Ams, group: Group::Atom(AtomGroup::Bin), name: '⊼' })
    } else if mode == Mode::Math && name == '⊻' {
        Some(Symbol { mode: Mode::Math, font: Font::Ams, group: Group::Atom(AtomGroup::Bin), name: '⊻' })
    } else if mode == Mode::Math && name == '⊙' {
        Some(Symbol { mode: Mode::Math, font: Font::Main, group: Group::Atom(AtomGroup::Bin), name: '⊙' })
    } else if mode == Mode::Math && name == '⊕' {
        Some(Symbol { mode: Mode::Math, font: Font::Main, group: Group::Atom(AtomGroup::Bin), name: '⊕' })
    } else if mode == Mode::Math && name == '⊗' {
        Some(Symbol { mode: Mode::Math, font: Font::Main, group: Group::Atom(AtomGroup::Bin), name: '⊗' })
    } else if mode == Mode::Math && name == '∂' {
        Some(Symbol { mode: Mode::Math, font: Font::Main, group: Group::NonAtom(NonAtomGroup::TextOrd), name: '∂' })
    } else {
        None
    }
}

fn lookup_part_8(mode: Mode, name: char) -> (r: Option<Symbol>)
    ensures
        r == table_part_8(mode, name),
{
    if mode == Mode::Math && name == 'φ' {
        return Some(Symbol { mode: Mode::Math, font: Font::Main, group: Group::NonAtom(NonAtomGroup::MathOrd), name: 'φ' });
    }
    if mode == Mode::Math && name == '+' {
        return Some(Symbol { mode: Mode::Math, font: Font::Main, group: Group::Atom(AtomGroup::Bin), name: '+' });
    }
    if mode == Mode::Math && name == '−' {
        return Some(Symbol { mode: Mode::Math, font: Font::Main, group: Group::Atom(AtomGroup::Bin), name: '−' });
    }
    if mode == Mode::Math && name == '∘' {
        return Some(Symbol { mode: Mode::Math, font: Font::Main, group: Group::Atom(AtomGroup::Bin), name: '∘' });
    }
    if mode == Mode::Math && name == '÷' {
        return Some(Symbol { mode: Mode::Math, font: Font::Main, group: Group::Atom(AtomGroup::Bin), name: '÷' });
    }
    if mode == Mode::Math && name == '±' {
        return Some(Symbol { mode: Mode::Math, font: Font::Main, group: Group::Atom(AtomGroup::Bin), name: '±' });
    }
    if mode == Mode::Math && name == '×' {
        return Some(Symbol { mode: Mode::Math, font: Font::Main, group: Group::Atom(AtomGroup::Bin), name: '×' });
    }
    if mode == Mode::Math && name == '∩' {
        return Some(Symbol { mode: Mode::Math, font: Font::Main, group: Group::Atom(AtomGroup::Bin), name: '∩' });
    }
    if mode == Mode::Math && name == '∪' {
        return Some(Symbol { mode: Mode::Math, font: Font::Main, group: Group::Atom(AtomGroup::Bin), name: '∪' });
    }
    if mode == Mode::Math && name == '∧' {
        return Some(Symbol { mode: Mode::Math, font: Font::Main, group: Group::Atom(AtomGroup::Bin), name: '∧' });
    }
    if mode == Mode::Math && name == '∨' {
        return Some(Symbol { mode: Mode::Math, font: Font::Main, group: Group::Atom(AtomGroup::Bin), name: '∨' });
    }
    if mode == Mode::Math && name == '√' {
        return Some(Symbol { mode: Mode::Math, font: Font::Main, group: Group::NonAtom(NonAtomGroup::TextOrd), name: '√' });
    }
    if mode == Mode::Math && name == '⟨' {
        return Some(Symbol { mode: Mode::Math, font: Font::Main, group: Group::Atom(AtomGroup::Open), name: '⟨' });
    }
    if mode == Mode::Math && name == '?' {
        return Some(Symbol { mode: Mode::Math, font: Font::Main, group: Group::Atom(AtomGroup::Close), name: '?' });
    }
    if mode == Mode::Math && name == '!' {
        return Some(Symbol { mode: Mode::Math, font: Font::Main, group: Group::Atom(AtomGroup::Close), name: '!' });
    }
    if mode == Mode::Math && name == '⟩' {
        return Some(Symbol { mode: Mode::Math, font: Font::Main, group: Group::Atom(AtomGroup::Close), name: '⟩' });
    }
    if mode == Mode::Math && name == '=' {
        return Some(Symbol { mode: Mode::Math, font: Font::Main, group: Group::Atom(AtomGroup::Rel), name: '=' });
    }
    if mode == Mode::Math && name == ':' {
        return Some(Symbol { mode: Mode::Math, font: Font::Main, group: Group::Atom(AtomGroup::Rel), name: ':' });
    }
    if mode == Mode::Math && name == '≅' {
        return Some(Symbol { mode: Mode::Math, font: Font::Main, group: Group::Atom(AtomGroup::Rel), name: '≅' });
    }
    if mode == Mode::Math && name == '≥' {
        return Some(Symbol { mode: Mode::Math, font: Font::Main, group: Group::Atom(AtomGroup::Rel), name: '≥' });
    }
    if mode == Mode::Math && name == '←' {
        return Some(Symbol { mode: Mode::Math, font: Font::Main, group: Group::Atom(AtomGroup::Rel), name: '←' });
    }
    if mode == Mode::Math && name == '>' {
        return Some(Symbol { mode: Mode::Math, font: Font::Main, group: Group::Atom(AtomGroup::Rel), name: '>' });
    }
    if mode == Mode::Math && name == '∈' {
        return Some(Symbol { mode: Mode::Math, font: Font::Main, group: Group::Atom(AtomGroup::Rel), name: '∈' });
    }
    if mode == Mode::Math && name == '' {
        return Some(Symbol { mode: Mode::Math, font: Font::Main, group: Group::Atom(AtomGroup::Rel), name: '' });
    }
    if mode == Mode::Math && name == '⊂' {
        return Some(Symbol { mode: Mode::Math, font: Font::Main, group: Group::Atom(AtomGroup::Rel), name: '⊂' });
    }
    if mode == Mode::Math && name == '⊃' {
        return Some(Symbol { mode: Mode::Math, font: Font::Main, group: Group::Atom(AtomGroup::Rel), name: '⊃' });
    }
    if mode == Mode::Math && name == '⊆' {
        return Some(Symbol { mode: Mode::Math, font: Font::Main, group: Group::Atom(AtomGroup::Rel), name: '⊆' });
    }
    if mode == Mode::Math && name == '⊇' {
        return Some(Symbol { mode: Mode::Math, font: Font::Main, group: Group::Atom(AtomGroup::Rel), name: '⊇' });
    }
    if mode == Mode::Math && name == '⊈' {
        return Some(Symbol { mode: Mode::Math, font: Font::Ams, group: Group::Atom(AtomGroup::Rel), name: '⊈' });
    }
    if mode == Mode::Math && name == '⊉' {
        return Some(Symbol { mode: Mode::Math, font: Font::Ams, group: Group::Atom(AtomGroup::Rel), name: '⊉' });
    }
    if mode == Mode::Math && name == '≤' {
        return Some(Symbol { mode: Mode::Math, font: Font::Main, group: Group::Atom(AtomGroup::Rel), name: '≤' });
    }
    if mode == Mode::Math && name == '<' {
        return Some(Symbol { mode: Mode::Math, font: Font::Main, group: Group::Atom(AtomGroup::Rel), name: '<' });
    }
    if mode == Mode::Math && name == '→' {
        return Some(Symbol { mode: Mode::Math, font: Font::Main, group: Group::Atom(AtomGroup::Rel), name: '→' });
    }
    if mode == Mode::Math && name == '≱' {
        return Some(Symbol { mode: Mode::Math, font: Font::Ams, group: Group::Atom(AtomGroup::Rel), name: '≱' });
    }
    if mode == Mode::Math && name == '≰' {
        return Some(Symbol { mode: Mode::Math, font: Font::Ams, group: Group::Atom(AtomGroup::Rel), name: '≰' });
    }
    if mode == Mode::Math && name == ' ' {
        return Some(Symbol { mode: Mode::Math, font: Font::Main, group: Group::NonAtom(NonAtomGroup::Spacing), name: ' ' });
    }
    if mode == Mode::Text && name == ' ' {
        return Some(Symbol { mode: Mode::Text, font: Font::Main, group: Group::NonAtom(NonAtomGroup::Spacing), name: ' ' });
    }
    if mode == Mode::Math && name == ',' {
        return Some(Symbol { mode: Mode::Math, font: Font::Main, group: Group::Atom(AtomGroup::Punct), name: ',' });
    }
    if mode == Mode::Math && name == ';' {
        return Some(Symbol { mode: Mode::Math, font: Font::Main, group: Group::Atom(AtomGroup::Punct), name: ';' });
    }
    if mode == Mode::Math && name == '⊼' {
        return Some(Symbol { mode: Mode::Math, font: Font::Ams, group: Group::Atom(AtomGroup::Bin), name: '⊼' });
    }
    if mode == Mode::Math && name == '⊻' {
        return Some(Symbol { mode: Mode::Math, font: Font::Ams, group: Group::Atom(AtomGroup::Bin), name: '⊻' });
    }
    if mode == Mode::Math && name == '⊙' {
        return Some(Symbol { mode: Mode::Math, font: Font::Main, group: Group::Atom(AtomGroup::Bin), name: '⊙' });
    }
    if mode == Mode::Math && name == '⊕' {
        return Some(Symbol { mode: Mode::Math, font: Font::Main, group: Group::Atom(AtomGroup::Bin), name: '⊕' });
    }
    if mode == Mode::Math && name == '⊗' {
        return Some(Symbol { mode: Mode::Math, font: Font::Main, group: Group::Atom(AtomGroup::Bin), name: '⊗' });
    }
    if mode == Mode::Math && name == '∂' {
        return Some(Symbol { mode: Mode::Math, font: Font::Main, group: Group::NonAtom(NonAtomGroup::TextOrd), name: '∂' });
    }
    None
}

/// One part of the bulk symbol table.
pub open spec fn table_part_9(mode: Mode, name: char) -> Option<Symbol> {
    if mode == Mode::Math && name == '⊘' {
        Some(Symbol { mode: Mode::Math, font: Font::Main, group: Group::Atom(AtomGroup::Bin), name: '⊘' })
    } else if mode == Mode::Math && name == '⊚' {
        Some(Symbol { mode: Mode::Math, font: Font::Ams, group: Group::Atom(AtomGroup::Bin), name: '⊚' })
    } else if mode == Mode::Math && name == '⊡' {
        Some(Symbol { mode: Mode::Math, font: Font::Ams, group: Group::Atom(AtomGroup::Bin), name: '⊡' })
    } else if mode == Mode::Math && name == '⋄' {
        Some(Symbol { mode: Mode::Math, font: Font::Main, group: Group::Atom(AtomGroup::Bin), name: '⋄' })
    } else if mode == Mode::Math && name == '⋆' {
        Some(Symbol { mode: Mode::Math, font: Font::Main, group: Group::Atom(AtomGroup::Bin), name: '⋆' })
    } else if mode == Mode::Math && name == '◃' {
        Some(Symbol { mode: Mode::Math, font: Font::Main, group: Group::Atom(AtomGroup::Bin), name: '◃' })
    } else if mode == Mode::Math && name == '▹' {
        Some(Symbol { mode: Mode::Math, font: Font::Main, group: Group::Atom(AtomGroup::Bin), name: '▹' })
    } else if mode == Mode::Math && name == '{' {
        Some(Symbol { mode: Mode::Math, font: Font::Main, group: Group::Atom(AtomGroup::Open), name: '{' })
    } else if mode == Mode::Text && name == '{' {
        Some(Symbol { mode: Mode::Text, font: Font::Main, group: Group::NonAtom(NonAtomGroup::TextOrd), name: '{' })
    } else if mode == Mode::Math && name == '}' {
        Some(Symbol { mode: Mode::Math, font: Font::Main, group: Group::Atom(AtomGroup::Close), name: '}' })
    } else if mode == Mode::Text && name == '}' {
        Some(Symbol { mode: Mode::Text, font: Font::Main, group: Group::NonAtom(NonAtomGroup::TextOrd), name: '}' })
    } else if mode == Mode::Math && name == '[' {
        Some(Symbol { mode: Mode::Math, font: Font::Main, group: Group::Atom(AtomGroup::Open), name: '[' })
    } else if mode == Mode::Text && name == '[' {
        Some(Symbol { mode: Mode::Text, font: Font::Main, group: Group::NonAtom(NonAtomGroup::TextOrd), name: '[' })
    } else if mode == Mode::Math && name == ']' {
        Some(Symbol { mode: Mode::Math, font: Font::Main, group: Group::Atom(AtomGroup::Close), name: ']' })
    } else if mode == Mode::Text && name == ']' {
        Some(Symbol { mode: Mode::Text, font: Font::Main, group: Group::NonAtom(NonAtomGroup::TextOrd), name: ']' })
    } else if mode == Mode::Math && name == '(' {
        Some(Symbol { mode: Mode::Math, font: Font::Main, group: Group::Atom(AtomGroup::Open), name: '(' })
    } else if mode == Mode::Math && name == ')' {
        Some(Symbol { mode: Mode::Math, font: Font::Main, group: Group::Atom(AtomGroup::Close), name: ')' })
    } else if mode == Mode::Text && name == '<' {
        Some(Symbol { mode: Mode::Text, font: Font::Main, group: Group::NonAtom(NonAtomGroup::TextOrd), name: '<' })
    } else if mode == Mode::Text && name == '>' {
        Some(Symbol { mode: Mode::Text, font: Font::Main, group: Group::NonAtom(NonAtomGroup::TextOrd), name: '>' })
    } else if mode == Mode::Math && name == '⌊' {
        Some(Symbol { mode: Mode::Math, font: Font::Main, group: Group::Atom(AtomGroup::Open), name: '⌊' })
    } else if mode == Mode::Math && name == '⌋' {
        Some(Symbol { mode: Mode::Math, font: Font::Main, group: Group::Atom(AtomGroup::Close), name: '⌋' })
    } else if mode == Mode::Math && name == '⌈' {
        Some(Symbol { mode: Mode::Math, font: Font::Main, group: Group::Atom(AtomGroup::Open), name: '⌈' })
    } else if mode == Mode::Math && name == '⌉' {
        Some(Symbol { mode: Mode::Math, font: Font::Main, group: Group::Atom(AtomGroup::Close), name: '⌉' })
    } else if mode == Mode::Math && name == '\\' {
        Some(Symbol { mode: Mode::Math, font: Font::Main, group: Group::NonAtom(NonAtomGroup::TextOrd), name: '\\' })
    } else if mode == Mode::Text && name == '|' {
        Some(Symbol { mode: Mode::Text, font: Font::Main, group: Group::NonAtom(NonAtomGroup::TextOrd), name: '|' })
    } else if mode == Mode::Text && name == '∥' {
        Some(Symbol { mode: Mode::Text, font: Font::Main, group: Group::NonAtom(NonAtomGroup::TextOrd), name: '∥' })
    } else if mode == Mode::Text && name == '~' {
        Some(Symbol { mode: Mode::Text, font: Font::Main, group: Group::NonAtom(NonAtomGroup::TextOrd), name: '~' })
    } else if mode == Mode::Text && name == '\\' {
        Some(Symbol { mode: Mode::Text, font: Font::Main, group: Group::NonAtom(NonAtomGroup::TextOrd), name: '\\' })
    } else if mode == Mode::Text && name == '^' {
        Some(Symbol { mode: Mode::Text, font: Font::Main, group: Group::NonAtom(NonAtomGroup::TextOrd), name: '^' })
    } else if mode == Mode::Math && name == '↑' {
        Some(Symbol { mode: Mode::Math, font: Font::Main, group: Group::Atom(AtomGroup::Rel), name: '↑' })
    } else if mode == Mode::Math && name == '⇑' {
        Some(Symbol { mode: Mode::Math, font: Font::Main, group: Group::Atom(AtomGroup::Rel), name: '⇑' })
    } else if mode == Mode::Math && name == '↓' {
        Some(Symbol { mode: Mode::Math, font: Font::Main, group: Group::Atom(AtomGroup::Rel), name: '↓' })
    } else if mode == Mode::Math && name == '⇓' {
        Some(Symbol { mode: Mode::Math, font: Font::Main, group: Group::Atom(AtomGroup::Rel), name: '⇓' })
    } else if mode == Mode::Math && name == '↕' {
        Some(Symbol { mode: Mode::Math, font: Font::Main, group: Group::Atom(AtomGroup::Rel), name: '↕' })
    } else if mode == Mode::Math && name == '⇕' {
        Some(Symbol { mode: Mode::Math, font: Font::Main, group: Group::Atom(AtomGroup::Rel), name: '⇕' })
    } else if mode == Mode::Math && name == '∐' {
        Some(Symbol { mode: Mode::Math, font: Font::Main, group: Group::NonAtom(NonAtomGroup::OpToken), name: '∐' })
    } else if mode == Mode::Math && name == '⋁' {
        Some(Symbol { mode: Mode::Math, font: Font::Main, group: Group::NonAtom(NonAtomGroup::OpToken), name: '⋁' })
    } else if mode == Mode::Math && name == '⋀' {
        Some(Symbol { mode: Mode::Math, font: Font::Main, group: Group::NonAtom(NonAtomGroup::OpToken), name: '⋀' })
    } else if mode == Mode::Math && name == '⨄' {
        Some(Symbol { mode: Mode::Math, font: Font::Main, group: Group::NonAtom(NonAtomGroup::OpToken), name: '⨄' })
    } else if mode == Mode::Math && name == '⋂' {
        Some(Symbol { mode: Mode::Math, font: Font::Main, group: Group::NonAtom(NonAtomGroup::OpToken), name: '⋂' })
    } else if mode == Mode::Math && name == '⋃' {
        Some(Symbol { mode: Mode::Math, font: Font::Main, group: Group::NonAtom(NonAtomGroup::OpToken), name: '⋃' })
    } else if mode == Mode::Math && name == '∫' {
        Some(Symbol { mode: Mode::Math, font: Font::Main, group: Group::NonAtom(NonAtomGroup::OpToken), name: '∫' })
    } else if mode == Mode::Math && name == '∬' {
        Some(Symbol { mode: Mode::Math, font: Font::Main, group: Group::NonAtom(NonAtomGroup::OpToken), name: '∬' })
    } else if mode == Mode::Math && name == '∭' {
        Some(Symbol { mode: Mode::Math, font: Font::Main, group: Group::NonAtom(NonAtomGroup::OpToken), name: '∭' })
    } else if mode == Mode::Math && name == '∏' {
        Some(Symbol { mode: Mode::Math, font: Font::Main, group: Group::NonAtom(NonAtomGroup::OpToken), name: '∏' })
    } else {
        None
    }
}

fn lookup_part_9(mode: Mode, name: char) -> (r: Option<Symbol>)
    ensures
        r == table_part_9(mode, name),
{
    if mode == Mode::Math && name == '⊘' {
        return Some(Symbol { mode: Mode::Math, font: Font::Main, group: Group::Atom(AtomGroup::Bin), name: '⊘' });
    }
    if mode == Mode::Math && name == '⊚' {
        return Some(Symbol { mode: Mode::Math, font: Font::Ams, group: Group::Atom(AtomGroup::Bin), name: '⊚' });
    }
    if mode == Mode::Math && name == '⊡' {
        return Some(Symbol { mode: Mode::Math, font: Font::Ams, group: Group::Atom(AtomGroup::Bin), name: '⊡' });
    }
    if mode == Mode::Math && name == '⋄' {
        return Some(Symbol { mode: Mode::Math, font: Font::Main, group: Group::Atom(AtomGroup::Bin), name: '⋄' });
    }
    if mode == Mode::Math && name == '⋆' {
        return Some(Symbol { mode: Mode::Math, font: Font::Main, group: Group::Atom(AtomGroup::Bin), name: '⋆' });
    }
    if mode == Mode::Math && name == '◃' {
        return Some(Symbol { mode: Mode::Math, font: Font::Main, group: Group::Atom(AtomGroup::Bin), name: '◃' });
    }
    if mode == Mode::Math && name == '▹' {
        return Some(Symbol { mode: Mode::Math, font: Font::Main, group: Group::Atom(AtomGroup::Bin), name: '▹' });
    }
    if mode == Mode::Math && name == '{' {
        return Some(Symbol { mode: Mode::Math, font: Font::Main, group: Group::Atom(AtomGroup::Open), name: '{' });
    }
    if mode == Mode::Text && name == '{' {
        return Some(Symbol { mode: Mode::Text, font: Font::Main, group: Group::NonAtom(NonAtomGroup::TextOrd), name: '{' });
    }
    if mode == Mode::Math && name == '}' {
        return Some(Symbol { mode: Mode::Math, font: Font::Main, group: Group::Atom(AtomGroup::Close), name: '}' });
    }
    if mode == Mode::Text && name == '}' {
        return Some(Symbol { mode: Mode::Text, font: Font::Main, group: Group::NonAtom(NonAtomGroup::TextOrd), name: '}' });
    }
    if mode == Mode::Math && name == '[' {
        return Some(Symbol { mode: Mode::Math, font: Font::Main, group: Group::Atom(AtomGroup::Open), name: '[' });
    }
    if mode == Mode::Text && name == '[' {
        return Some(Symbol { mode: Mode::Text, font: Font::Main, group: Group::NonAtom(NonAtomGroup::TextOrd), name: '[' });
    }
    if mode == Mode::Math && name == ']' {
        return Some(Symbol { mode: Mode::Math, font: Font::Main, group: Group::Atom(AtomGroup::Close), name: ']' });
    }
    if mode == Mode::Text && name == ']' {
        return Some(Symbol { mode: Mode::Text, font: Font::Main, group: Group::NonAtom(NonAtomGroup::TextOrd), name: ']' });
    }
    if mode == Mode::Math && name == '(' {
        return Some(Symbol { mode: Mode::Math, font: Font::Main, group: Group::Atom(AtomGroup::Open), name: '(' });
    }
    if mode == Mode::Math && name == ')' {
        return Some(Symbol { mode: Mode::Math, font: Font::Main, group: Group::Atom(AtomGroup::Close), name: ')' });
    }
    if mode == Mode::Text && name == '<' {
        return Some(Symbol { mode: Mode::Text, font: Font::Main, group: Group::NonAtom(NonAtomGroup::TextOrd), name: '<' });
    }
    if mode == Mode::Text && name == '>' {
        return Some(Symbol { mode: Mode::Text, font: Font::Main, group: Group::NonAtom(NonAtomGroup::TextOrd), name: '>' });
    }
    if mode == Mode::Math && name == '⌊' {
        return Some(Symbol { mode: Mode::Math, font: Font::Main, group: Group::Atom(AtomGroup::Open), name: '⌊' });
    }
    if mode == Mode::Math && name == '⌋' {
        return Some(Symbol { mode: Mode::Math, font: Font::Main, group: Group::Atom(AtomGroup::Close), name: '⌋' });
    }
    if mode == Mode::Math && name == '⌈' {
        return Some(Symbol { mode: Mode::Math, font: Font::Main, group: Group::Atom(AtomGroup::Open), name: '⌈' });
    }
    if mode == Mode::Math && name == '⌉' {
        return Some(Symbol { mode: Mode::Math, font: Font::Main, group: Group::Atom(AtomGroup::Close), name: '⌉' });
    }
    if mode == Mode::Math && name == '\\' {
        return Some(Symbol { mode: Mode::Math, font: Font::Main, group: Group::NonAtom(NonAtomGroup::TextOrd), name: '\\' });
    }
    if mode == Mode::Text && name == '|' {
        return Some(Symbol { mode: Mode::Text, font: Font::Main, group: Group::NonAtom(NonAtomGroup::TextOrd), name: '|' });
    }
    if mode == Mode::Text && name == '∥' {
        return Some(Symbol { mode: Mode::Text, font: Font::Main, group: Group::NonAtom(NonAtomGroup::TextOrd), name: '∥' });
    }
    if mode == Mode::Text && name == '~' {
        return Some(Symbol { mode: Mode::Text, font: Font::Main, group: Group::NonAtom(NonAtomGroup::TextOrd), name: '~' });
    }
    if mode == Mode::Text && name == '\\' {
        return Some(Symbol { mode: Mode::Text, font: Font::Main, group: Group::NonAtom(NonAtomGroup::TextOrd), name: '\\' });
    }
    if mode == Mode::Text && name == '^' {
        return Some(Symbol { mode: Mode::Text, font: Font::Main, group: Group::NonAtom(NonAtomGroup::TextOrd), name: '^' });
    }
    if mode == Mode::Math && name == '↑' {
        return Some(Symbol { mode: Mode::Math, font: Font::Main, group: Group::Atom(AtomGroup::Rel), name: '↑' });
    }
    if mode == Mode::Math && name == '⇑' {
        return Some(Symbol { mode: Mode::Math, font: Font::Main, group: Group::Atom(AtomGroup::Rel), name: '⇑' });
    }
    if mode == Mode::Math && name == '↓' {
        return Some(Symbol { mode: Mode::Math, font: Font::Main, group: Group::Atom(AtomGroup::Rel), name: '↓' });
    }
    if mode == Mode::Math && name == '⇓' {
        return Some(Symbol { mode: Mode::Math, font: Font::Main, group: Group::Atom(AtomGroup::Rel), name: '⇓' });
    }
    if mode == Mode::Math && name == '↕' {
        return Some(Symbol { mode: Mode::Math, font: Font::Main, group: Group::Atom(AtomGroup::Rel), name: '↕' });
    }
    if mode == Mode::Math && name == '⇕' {
        return Some(Symbol { mode: Mode::Math, font: Font::Main, group: Group::Atom(AtomGroup::Rel), name: '⇕' });
    }
    if mode == Mode::Math && name == '∐' {
        return Some(Symbol { mode: Mode::Math, font: Font::Main, group: Group::NonAtom(NonAtomGroup::OpToken), name: '∐' });
    }
    if mode == Mode::Math && name == '⋁' {
        return Some(Symbol { mode: Mode::Math, font: Font::Main, group: Group::NonAtom(NonAtomGroup::OpToken), name: '⋁' });
    }
    if mode == Mode::Math && name == '⋀' {
        return Some(Symbol { mode: Mode::Math, font: Font::Main, group: Group::NonAtom(NonAtomGroup::OpToken), name: '⋀' });
    }
    if mode == Mode::Math && name == '⨄' {
        return Some(Symbol { mode: Mode::Math, font: Font::Main, group: Group::NonAtom(NonAtomGroup::OpToken), name: '⨄' });
    }
    if mode == Mode::Math && name == '⋂' {
        return Some(Symbol { mode: Mode::Math, font: Font::Main, group: Group::NonAtom(NonAtomGroup::OpToken), name: '⋂' });
    }
    if mode == Mode::Math && name == '⋃' {
        return Some(Symbol { mode: Mode::Math, font: Font::Main, group: Group::NonAtom(NonAtomGroup::OpToken), name: '⋃' });
    }
    if mode == Mode::Math && name == '∫' {
        return Some(Symbol { mode: Mode::Math, font: Font::Main, group: Group::NonAtom(NonAtomGroup::OpToken), name: '∫' });
    }
    if mode == Mode::Math && name == '∬' {
        return Some(Symbol { mode: Mode::Math, font: Font::Main, group: Group::NonAtom(NonAtomGroup::OpToken), name: '∬' });
    }
    if mode == Mode::Math && name == '∭' {
        return Some(Symbol { mode: Mode::Math, font: Font::Main, group: Group::NonAtom(NonAtomGroup::OpToken), name: '∭' });
    }
    if mode == Mode::Math && name == '∏' {
        return Some(Symbol { mode: Mode::Math, font: Font::Main, group: Group::NonAtom(NonAtomGroup::OpToken), name: '∏' });
    }
    None
}

/// One part of the bulk symbol table.
pub open spec fn table_part_10(mode: Mode, name: char) -> Option<Symbol> {
    if mode == Mode::Math && name == '∑' {
        Some(Symbol { mode: Mode::Math, font: Font::Main, group: Group::NonAtom(NonAtomGroup::OpToken), name: '∑' })
    } else if mode == Mode::Math && name == '⨂' {
        Some(Symbol { mode: Mode::Math, font: Font::Main, group: Group::NonAtom(NonAtomGroup::OpToken), name: '⨂' })
    } else if mode == Mode::Math && name == '⨁' {
        Some(Symbol { mode: Mode::Math, font: Font::Main, group: Group::NonAtom(NonAtomGroup::OpToken), name: '⨁' })
    } else if mode == Mode::Math && name == '⨀' {
        Some(Symbol { mode: Mode::Math, font: Font::Main, group: Group::NonAtom(NonAtomGroup::OpToken), name: '⨀' })
    } else if mode == Mode::Math && name == '∮' {
        Some(Symbol { mode: Mode::Math, font: Font::Main, group: Group::NonAtom(NonAtomGroup::OpToken), name: '∮' })
    } else if mode == Mode::Math && name == '∯' {
        Some(Symbol { mode: Mode::Math, font: Font::Main, group: Group::NonAtom(NonAtomGroup::OpToken), name: '∯' })
    } else if mode == Mode::Math && name == '∰' {
        Some(Symbol { mode: Mode::Math, font: Font::Main, group: Group::NonAtom(NonAtomGroup::OpToken), name: '∰' })
    } else if mode == Mode::Math && name == '⨆' {
        Some(Symbol { mode: Mode::Math, font: Font::Main, group: Group::NonAtom(NonAtomGroup::OpToken), name: '⨆' })
    } else if mode == Mode::Text && name == '…' {
        Some(Symbol { mode: Mode::Text, font: Font::Main, group: Group::Atom(AtomGroup::Inner), name: '…' })
    } else if mode == Mode::Math && name == '…' {
        Some(Symbol { mode: Mode::Math, font: Font::Main, group: Group::Atom(AtomGroup::Inner), name: '…' })
    } else if mode == Mode::Math && name == '⋯' {
        Some(Symbol { mode: Mode::Math, font: Font::Main, group: Group::Atom(AtomGroup::Inner), name: '⋯' })
    } else if mode == Mode::Math && name == '⋱' {
        Some(Symbol { mode: Mode::Math, font: Font::Main, group: Group::Atom(AtomGroup::Inner), name: '⋱' })
    } else if mode == Mode::Math && name == '⋮' {
        Some(Symbol { mode: Mode::Math, font: Font::Main, group: Group::NonAtom(NonAtomGroup::TextOrd), name: '⋮' })
    } else if mode == Mode::Math && name == 'ˊ' {
        Some(Symbol { mode: Mode::Math, font: Font::Main, group: Group::NonAtom(NonAtomGroup::AccentToken), name: 'ˊ' })
    } else if mode == Mode::Math && name == 'ˋ' {
        Some(Symbol { mode: Mode::Math, font: Font::Main, group: Group::NonAtom(NonAtomGroup::AccentToken), name: 'ˋ' })
    } else if mode == Mode::Math && name == '¨' {
        Some(Symbol { mode: Mode::Math, font: Font::Main, group: Group::NonAtom(NonAtomGroup::AccentToken), name: '¨' })
    } else if mode == Mode::Math && name == '~' {
        Some(Symbol { mode: Mode::Math, font: Font::Main, group: Group::NonAtom(NonAtomGroup::AccentToken), name: '~' })
    } else if mode == Mode::Math && name == 'ˉ' {
        Some(Symbol { mode: Mode::Math, font: Font::Main, group: Group::NonAtom(NonAtomGroup::AccentToken), name: 'ˉ' })
    } else if mode == Mode::Math && name == '˘' {
        Some(Symbol { mode: Mode::Math, font: Font::Main, group: Group::NonAtom(NonAtomGroup::AccentToken), name: '˘' })
    } else if mode == Mode::Math && name == 'ˇ' {
        Some(Symbol { mode: Mode::Math, font: Font::Main, group: Group::NonAtom(NonAtomGroup::AccentToken), name: 'ˇ' })
    } else if mode == Mode::Math && name == '^' {
        Some(Symbol { mode: Mode::Math, font: Font::Main, group: Group::NonAtom(NonAtomGroup::AccentToken), name: '^' })
    } else if mode == Mode::Math && name == '⃗' {
        Some(Symbol { mode: Mode::Math, font: Font::Main, group: Group::NonAtom(NonAtomGroup::AccentToken), name: '⃗' })
    } else if mode == Mode::Math && name == '˙' {
        Some(Symbol { mode: Mode::Math, font: Font::Main, group: Group::NonAtom(NonAtomGroup::AccentToken), name: '˙' })
    } else if mode == Mode::Math && name == '˚' {
        Some(Symbol { mode: Mode::Math, font: Font::Main, group: Group::NonAtom(NonAtomGroup::AccentToken), name: '˚' })
    } else if mode == Mode::Math && name == '' {
        Some(Symbol { mode: Mode::Math, font: Font::Main, group: Group::NonAtom(NonAtomGroup::MathOrd), name: '' })
    } else if mode == Mode::Math && name == '' {
        Some(Symbol { mode: Mode::Math, font: Font::Main, group: Group::NonAtom(NonAtomGroup::MathOrd), name: '' })
    } else if mode == Mode::Math && name == 'ı' {
        Some(Symbol { mode: Mode::Math, font: Font::Main, group: Group::NonAtom(NonAtomGroup::TextOrd), name: 'ı' })
    } else if mode == Mode::Math && name == 'ȷ' {
        Some(Symbol { mode: Mode::Math, font: Font::Main, group: Group::NonAtom(NonAtomGroup::TextOrd), name: 'ȷ' })
    } else if mode == Mode::Text && name == 'ı' {
        Some(Symbol { mode: Mode::Text, font: Font::Main, group: Group::NonAtom(NonAtomGroup::TextOrd), name: 'ı' })
    } else if mode == Mode::Text && name == 'ȷ' {
        Some(Symbol { mode: Mode::Text, font: Font::Main, group: Group::NonAtom(NonAtomGroup::TextOrd), name: 'ȷ' })
    } else if mode == Mode::Text && name == 'ß' {
        Some(Symbol { mode: Mode::Text, font: Font::Main, group: Group::NonAtom(NonAtomGroup::TextOrd), name: 'ß' })
    } else if mode == Mode::Text && name == 'æ' {
        Some(Symbol { mode: Mode::Text, font: Font::Main, group: Group::NonAtom(NonAtomGroup::TextOrd), name: 'æ' })
    } else if mode == Mode::Text && name == 'œ' {
        Some(Symbol { mode: Mode::Text, font: Font::Main, group: Group::NonAtom(NonAtomGroup::TextOrd), name: 'œ' })
    } else if mode == Mode::Text && name == 'ø' {
        Some(Symbol { mode: Mode::Text, font: Font::Main, group: Group::NonAtom(NonAtomGroup::TextOrd), name: 'ø' })
    } else if mode == Mode::Text && name == 'Æ' {
        Some(Symbol { mode: Mode::Text, font: Font::Main, group: Group::NonAtom(NonAtomGroup::TextOrd), name: 'Æ' })
    } else if mode == Mode::Text && name == 'Œ' {
        Some(Symbol { mode: Mode::Text, font: Font::Main, group: Group::NonAtom(NonAtomGroup::TextOrd), name: 'Œ' })
    } else if mode == Mode::Text && name == 'Ø' {
        Some(Symbol { mode: Mode::Text, font: Font::Main, group: Group::NonAtom(NonAtomGroup::TextOrd), name: 'Ø' })
    } else if mode == Mode::Text && name == 'ˊ' {
        Some(Symbol { mode: Mode::Text, font: Font::Main, group: Group::NonAtom(NonAtomGroup::AccentToken), name: 'ˊ' })
    } else if mode == Mode::Text && name == 'ˋ' {
        Some(Symbol { mode: Mode::Text, font: Font::Main, group: Group::NonAtom(NonAtomGroup::AccentToken), name: 'ˋ' })
    } else if mode == Mode::Text && name == 'ˆ' {
        Some(Symbol { mode: Mode::Text, font: Font::Main, group: Group::NonAtom(NonAtomGroup::AccentToken), name: 'ˆ' })
    } else if mode == Mode::Text && name == '˜' {
        Some(Symbol { mode: Mode::Text, font: Font::Main, group: Group::NonAtom(NonAtomGroup::AccentToken), name: '˜' })
    } else if mode == Mode::Text && name == 'ˉ' {
        Some(Symbol { mode: Mode::Text, font: Font::Main, group: Group::NonAtom(NonAtomGroup::AccentToken), name: 'ˉ' })
    } else if mode == Mode::Text && name == '˘' {
        Some(Symbol { mode: Mode::Text, font: Font::Main, group: Group::NonAtom(NonAtomGroup::AccentToken), name: '˘' })
    } else if mode == Mode::Text && name == '˙' {
        Some(Symbol { mode: Mode::Text, font: Font::Main, group: Group::NonAtom(NonAtomGroup::AccentToken), name: '˙' })
    } else if mode == Mode::Text && name == '¸' {
        Some(Symbol { mode: Mode::Text, font: Font::Main, group: Group::NonAtom(NonAtomGroup::AccentToken), name: '¸' })
    } else {
        None
    }
}

fn lookup_part_10(mode: Mode, name: char) -> (r: Option<Symbol>)
    ensures
        r == table_part_10(mode, name),
{
    if mode == Mode::Math && name == '∑' {
        return Some(Symbol { mode: Mode::Math, font: Font::Main, group: Group::NonAtom(NonAtomGroup::OpToken), name: '∑' });
    }
    if mode == Mode::Math && name == '⨂' {
        return Some(Symbol { mode: Mode::Math, font: Font::Main, group: Group::NonAtom(NonAtomGroup::OpToken), name: '⨂' });
    }
    if mode == Mode::Math && name == '⨁' {
        return Some(Symbol { mode: Mode::Math, font: Font::Main, group: Group::NonAtom(NonAtomGroup::OpToken), name: '⨁' });
    }
    if mode == Mode::Math && name == '⨀' {
        return Some(Symbol { mode: Mode::Math, font: Font::Main, group: Group::NonAtom(NonAtomGroup::OpToken), name: '⨀' });
    }
    if mode == Mode::Math && name == '∮' {
        return Some(Symbol { mode: Mode::Math, font: Font::Main, group: Group::NonAtom(NonAtomGroup::OpToken), name: '∮' });
    }
    if mode == Mode::Math && name == '∯' {
        return Some(Symbol { mode: Mode::Math, font: Font::Main, group: Group::NonAtom(NonAtomGroup::OpToken), name: '∯' });
    }
    if mode == Mode::Math && name == '∰' {
        return Some(Symbol { mode: Mode::Math, font: Font::Main, group: Group::NonAtom(NonAtomGroup::OpToken), name: '∰' });
    }
    if mode == Mode::Math && name == '⨆' {
        return Some(Symbol { mode: Mode::Math, font: Font::Main, group: Group::NonAtom(NonAtomGroup::OpToken), name: '⨆' });
    }
    if mode == Mode::Text && name == '…' {
        return Some(Symbol { mode: Mode::Text, font: Font::Main, group: Group::Atom(AtomGroup::Inner), name: '…' });
    }
    if mode == Mode::Math && name == '…' {
        return Some(Symbol { mode: Mode::Math, font: Font::Main, group: Group::Atom(AtomGroup::Inner), name: '…' });
    }
    if mode == Mode::Math && name == '⋯' {
        return Some(Symbol { mode: Mode::Math, font: Font::Main, group: Group::Atom(AtomGroup::Inner), name: '⋯' });
    }
    if mode == Mode::Math && name == '⋱' {
        return Some(Symbol { mode: Mode::Math, font: Font::Main, group: Group::Atom(AtomGroup::Inner), name: '⋱' });
    }
    if mode == Mode::Math && name == '⋮' {
        return Some(Symbol { mode: Mode::Math, font: Font::Main, group: Group::NonAtom(NonAtomGroup::TextOrd), name: '⋮' });
    }
    if mode == Mode::Math && name == 'ˊ' {
        return Some(Symbol { mode: Mode::Math, font: Font::Main, group: Group::NonAtom(NonAtomGroup::AccentToken), name: 'ˊ' });
    }
    if mode == Mode::Math && name == 'ˋ' {
        return Some(Symbol { mode: Mode::Math, font: Font::Main, group: Group::NonAtom(NonAtomGroup::AccentToken), name: 'ˋ' });
    }
    if mode == Mode::Math && name == '¨' {
        return Some(Symbol { mode: Mode::Math, font: Font::Main, group: Group::NonAtom(NonAtomGroup::AccentToken), name: '¨' });
    }
    if mode == Mode::Math && name == '~' {
        return Some(Symbol { mode: Mode::Math, font: Font::Main, group: Group::NonAtom(NonAtomGroup::AccentToken), name: '~' });
    }
    if mode == Mode::Math && name == 'ˉ' {
        return Some(Symbol { mode: Mode::Math, font: Font::Main, group: Group::NonAtom(NonAtomGroup::AccentToken), name: 'ˉ' });
    }
    if mode == Mode::Math && name == '˘' {
        return Some(Symbol { mode: Mode::Math, font: Font::Main, group: Group::NonAtom(NonAtomGroup::AccentToken), name: '˘' });
    }
    if mode == Mode::Math && name == 'ˇ' {
        return Some(Symbol { mode: Mode::Math, font: Font::Main, group: Group::NonAtom(NonAtomGroup::AccentToken), name: 'ˇ' });
    }
    if mode == Mode::Math && name == '^' {
        return Some(Symbol { mode: Mode::Math, font: Font::Main, group: Group::NonAtom(NonAtomGroup::AccentToken), name: '^' });
    }
    if mode == Mode::Math && name == '⃗' {
        return Some(Symbol { mode: Mode::Math, font: Font::Main, group: Group::NonAtom(NonAtomGroup::AccentToken), name: '⃗' });
    }
    if mode == Mode::Math && name == '˙' {
        return Some(Symbol { mode: Mode::Math, font: Font::Main, group: Group::NonAtom(NonAtomGroup::AccentToken), name: '˙' });
    }
    if mode == Mode::Math && name == '˚' {
        return Some(Symbol { mode: Mode::Math, font: Font::Main, group: Group::NonAtom(NonAtomGroup::AccentToken), name: '˚' });
    }
    if mode == Mode::Math && name == '' {
        return Some(Symbol { mode: Mode::Math, font: Font::Main, group: Group::NonAtom(NonAtomGroup::MathOrd), name: '' });
    }
    if mode == Mode::Math && name == '' {
        return Some(Symbol { mode: Mode::Math, font: Font::Main, group: Group::NonAtom(NonAtomGroup::MathOrd), name: '' });
    }
    if mode == Mode::Math && name == 'ı' {
        return Some(Symbol { mode: Mode::Math, font: Font::Main, group: Group::NonAtom(NonAtomGroup::TextOrd), name: 'ı' });
    }
    if mode == Mode::Math && name == 'ȷ' {
        return Some(Symbol { mode: Mode::Math, font: Font::Main, group: Group::NonAtom(NonAtomGroup::TextOrd), name: 'ȷ' });
    }
    if mode == Mode::Text && name == 'ı' {
        return Some(Symbol { mode: Mode::Text, font: Font::Main, group: Group::NonAtom(NonAtomGroup::TextOrd), name: 'ı' });
    }
    if mode == Mode::Text && name == 'ȷ' {
        return Some(Symbol { mode: Mode::Text, font: Font::Main, group: Group::NonAtom(NonAtomGroup::TextOrd), name: 'ȷ' });
    }
    if mode == Mode::Text && name == 'ß' {
        return Some(Symbol { mode: Mode::Text, font: Font::Main, group: Group::NonAtom(NonAtomGroup::TextOrd), name: 'ß' });
    }
    if mode == Mode::Text && name == 'æ' {
        return Some(Symbol { mode: Mode::Text, font: Font::Main, group: Group::NonAtom(NonAtomGroup::TextOrd), name: 'æ' });
    }
    if mode == Mode::Text && name == 'œ' {
        return Some(Symbol { mode: Mode::Text, font: Font::Main, group: Group::NonAtom(NonAtomGroup::TextOrd), name: 'œ' });
    }
    if mode == Mode::Text && name == 'ø' {
        return Some(Symbol { mode: Mode::Text, font: Font::Main, group: Group::NonAtom(NonAtomGroup::TextOrd), name: 'ø' });
    }
    if mode == Mode::Text && name == 'Æ' {
        return Some(Symbol { mode: Mode::Text, font: Font::Main, group: Group::NonAtom(NonAtomGroup::TextOrd), name: 'Æ' });
    }
    if mode == Mode::Text && name == 'Œ' {
        return Some(Symbol { mode: Mode::Text, font: Font::Main, group: Group::NonAtom(NonAtomGroup::TextOrd), name: 'Œ' });
    }
    if mode == Mode::Text && name == 'Ø' {
        return Some(Symbol { mode: Mode::Text, font: Font::Main, group: Group::NonAtom(NonAtomGroup::TextOrd), name: 'Ø' });
    }
    if mode == Mode::Text && name == 'ˊ' {
        return Some(Symbol { mode: Mode::Text, font: Font::Main, group: Group::NonAtom(NonAtomGroup::AccentToken), name: 'ˊ' });
    }
    if mode == Mode::Text && name == 'ˋ' {
        return Some(Symbol { mode: Mode::Text, font: Font::Main, group: Group::NonAtom(NonAtomGroup::AccentToken), name: 'ˋ' });
    }
    if mode == Mode::Text && name == 'ˆ' {
        return Some(Symbol { mode: Mode::Text, font: Font::Main, group: Group::NonAtom(NonAtomGroup::AccentToken), name: 'ˆ' });
    }
    if mode == Mode::Text && name == '˜' {
        return Some(Symbol { mode: Mode::Text, font: Font::Main, group: Group::NonAtom(NonAtomGroup::AccentToken), name: '˜' });
    }
    if mode == Mode::Text && name == 'ˉ' {
        return Some(Symbol { mode: Mode::Text, font: Font::Main, group: Group::NonAtom(NonAtomGroup::AccentToken), name: 'ˉ' });
    }
    if mode == Mode::Text && name == '˘' {
        return Some(Symbol { mode: Mode::Text, font: Font::Main, group: Group::NonAtom(NonAtomGroup::AccentToken), name: '˘' });
    }
    if mode == Mode::Text && name == '˙' {
        return Some(Symbol { mode: Mode::Text, font: Font::Main, group: Group::NonAtom(NonAtomGroup::AccentToken), name: '˙' });
    }
    if mode == Mode::Text && name == '¸' {
        return Some(Symbol { mode: Mode::Text, font: Font::Main, group: Group::NonAtom(NonAtomGroup::AccentToken), name: '¸' });
    }
    None
}

/// One part of the bulk symbol table.
pub open spec fn table_part_11(mode: Mode, name: char) -> Option<Symbol> {
    if mode == Mode::Text && name == '˚' {
        Some(Symbol { mode: Mode::Text, font: Font::Main, group: Group::NonAtom(NonAtomGroup::AccentToken), name: '˚' })
    } else if mode == Mode::Text && name == 'ˇ' {
        Some(Symbol { mode: Mode::Text, font: Font::Main, group: Group::NonAtom(NonAtomGroup::AccentToken), name: 'ˇ' })
    } else if mode == Mode::Text && name == '¨' {
        Some(Symbol { mode: Mode::Text, font: Font::Main, group: Group::NonAtom(NonAtomGroup::AccentToken), name: '¨' })
    } else if mode == Mode::Text && name == '˝' {
        Some(Symbol { mode: Mode::Text, font: Font::Main, group: Group::NonAtom(NonAtomGroup::AccentToken), name: '˝' })
    } else if mode == Mode::Text && name == '◯' {
        Some(Symbol { mode: Mode::Text, font: Font::Main, group: Group::NonAtom(NonAtomGroup::AccentToken), name: '◯' })
    } else if mode == Mode::Text && name == '–' {
        Some(Symbol { mode: Mode::Text, font: Font::Main, group: Group::NonAtom(NonAtomGroup::TextOrd), name: '–' })
    } else if mode == Mode::Text && name == '—' {
        Some(Symbol { mode: Mode::Text, font: Font::Main, group: Group::NonAtom(NonAtomGroup::TextOrd), name: '—' })
    } else if mode == Mode::Text && name == '‘' {
        Some(Symbol { mode: Mode::Text, font: Font::Main, group: Group::NonAtom(NonAtomGroup::TextOrd), name: '‘' })
    } else if mode == Mode::Text && name == '’' {
        Some(Symbol { mode: Mode::Text, font: Font::Main, group: Group::NonAtom(NonAtomGroup::TextOrd), name: '’' })
    } else if mode == Mode::Text && name == '“' {
        Some(Symbol { mode: Mode::Text, font: Font::Main, group: Group::NonAtom(NonAtomGroup::TextOrd), name: '“' })
    } else if mode == Mode::Text && name == '”' {
        Some(Symbol { mode: Mode::Text, font: Font::Main, group: Group::NonAtom(NonAtomGroup::TextOrd), name: '”' })
    } else if mode == Mode::Math && name == '°' {
        Some(Symbol { mode: Mode::Math, font: Font::Main, group: Group::NonAtom(NonAtomGroup::TextOrd), name: '°' })
    } else if mode == Mode::Text && name == '°' {
        Some(Symbol { mode: Mode::Text, font: Font::Main, group: Group::NonAtom(NonAtomGroup::TextOrd), name: '°' })
    } else if mode == Mode::Math && name == '£' {
        Some(Symbol { mode: Mode::Math, font: Font::Main, group: Group::NonAtom(NonAtomGroup::TextOrd), name: '£' })
    } else if mode == Mode::Text && name == '£' {
        Some(Symbol { mode: Mode::Text, font: Font::Main, group: Group::NonAtom(NonAtomGroup::TextOrd), name: '£' })
    } else if mode == Mode::Math && name == '✠' {
        Some(Symbol { mode: Mode::Math, font: Font::Ams, group: Group::NonAtom(NonAtomGroup::TextOrd), name: '✠' })
    } else if mode == Mode::Text && name == '✠' {
        Some(Symbol { mode: Mode::Text, font: Font::Ams, group: Group::NonAtom(NonAtomGroup::TextOrd), name: '✠' })
    } else if mode == Mode::Math && name == '0' {
        Some(Symbol { mode: Mode::Math, font: Font::Main, group: Group::NonAtom(NonAtomGroup::MathOrd), name: '0' })
    } else if mode == Mode::Math && name == '1' {
        Some(Symbol { mode: Mode::Math, font: Font::Main, group: Group::NonAtom(NonAtomGroup::MathOrd), name: '1' })
    } else if mode == Mode::Math && name == '2' {
        Some(Symbol { mode: Mode::Math, font: Font::Main, group: Group::NonAtom(NonAtomGroup::MathOrd), name: '2' })
    } else if mode == Mode::Math && name == '3' {
        Some(Symbol { mode: Mode::Math, font: Font::Main, group: Group::NonAtom(NonAtomGroup::MathOrd), name: '3' })
    } else if mode == Mode::Math && name == '4' {
        Some(Symbol { mode: Mode::Math, font: Font::Main, group: Group::NonAtom(NonAtomGroup::MathOrd), name: '4' })
    } else if mode == Mode::Math && name == '5' {
        Some(Symbol { mode: Mode::Math, font: Font::Main, group: Group::NonAtom(NonAtomGroup::MathOrd), name: '5' })
    } else if mode == Mode::Math && name == '6' {
        Some(Symbol { mode: Mode::Math, font: Font::Main, group: Group::NonAtom(NonAtomGroup::MathOrd), name: '6' })
    } else if mode == Mode::Math && name == '7' {
        Some(Symbol { mode: Mode::Math, font: Font::Main, group: Group::NonAtom(NonAtomGroup::MathOrd), name: '7' })
    } else if mode == Mode::Math && name == '8' {
        Some(Symbol { mode: Mode::Math, font: Font::Main, group: Group::NonAtom(NonAtomGroup::MathOrd), name: '8' })
    } else if mode == Mode::Math && name == '9' {
        Some(Symbol { mode: Mode::Math, font: Font::Main, group: Group::NonAtom(NonAtomGroup::MathOrd), name: '9' })
    } else if mode == Mode::Math && name == '/' {
        Some(Symbol { mode: Mode::Math, font: Font::Main, group: Group::NonAtom(NonAtomGroup::TextOrd), name: '/' })
    } else if mode == Mode::Math && name == '@' {
        Some(Symbol { mode: Mode::Math, font: Font::Main, group: Group::NonAtom(NonAtomGroup::TextOrd), name: '@' })
    } else if mode == Mode::Math && name == '"' {
        Some(Symbol { mode: Mode::Math, font: Font::Main, group: Group::NonAtom(NonAtomGroup::TextOrd), name: '"' })
    } else if mode == Mode::Text && name == '0' {
        Some(Symbol { mode: Mode::Text, font: Font::Main, group: Group::NonAtom(NonAtomGroup::TextOrd), name: '0' })
    } else if mode == Mode::Text && name == '1' {
        Some(Symbol { mode: Mode::Text, font: Font::Main, group: Group::NonAtom(NonAtomGroup::TextOrd), name: '1' })
    } else if mode == Mode::Text && name == '2' {
        Some(Symbol { mode: Mode::Text, font: Font::Main, group: Group::NonAtom(NonAtomGroup::TextOrd), name: '2' })
    } else if mode == Mode::Text && name == '3' {
        Some(Symbol { mode: Mode::Text, font: Font::Main, group: Group::NonAtom(NonAtomGroup::TextOrd), name: '3' })
    } else if mode == Mode::Text && name == '4' {
        Some(Symbol { mode: Mode::Text, font: Font::Main, group: Group::NonAtom(NonAtomGroup::TextOrd), name: '4' })
    } else if mode == Mode::Text && name == '5' {
        Some(Symbol { mode: Mode::Text, font: Font::Main, group: Group::NonAtom(NonAtomGroup::TextOrd), name: '5' })
    } else if mode == Mode::Text && name == '6' {
        Some(Symbol { mode: Mode::Text, font: Font::Main, group: Group::NonAtom(NonAtomGroup::TextOrd), name: '6' })
    } else if mode == Mode::Text && name == '7' {
        Some(Symbol { mode: Mode::Text, font: Font::Main, group: Group::NonAtom(NonAtomGroup::TextOrd), name: '7' })
    } else if mode == Mode::Text && name == '8' {
        Some(Symbol { mode: Mode::Text, font: Font::Main, group: Group::NonAtom(NonAtomGroup::TextOrd), name: '8' })
    } else if mode == Mode::Text && name == '9' {
        Some(Symbol { mode: Mode::Text, font: Font::Main, group: Group::NonAtom(NonAtomGroup::TextOrd), name: '9' })
    } else if mode == Mode::Text && name == '!' {
        Some(Symbol { mode: Mode::Text, font: Font::Main, group: Group::NonAtom(NonAtomGroup::TextOrd), name: '!' })
    } else if mode == Mode::Text && name == '@' {
        Some(Symbol { mode: Mode::Text, font: Font::Main, group: Group::NonAtom(NonAtomGroup::TextOrd), name: '@' })
    } else if mode == Mode::Text && name == '*' {
        Some(Symbol { mode: Mode::Text, font: Font::Main, group: Group::NonAtom(NonAtomGroup::TextOrd), name: '*' })
    } else if mode == Mode::Text && name == '(' {
        Some(Symbol { mode: Mode::Text, font: Font::Main, group: Group::NonAtom(NonAtomGroup::TextOrd), name: '(' })
    } else if mode == Mode::Text && name == ')' {
        Some(Symbol { mode: Mode::Text, font: Font::Main, group: Group::NonAtom(NonAtomGroup::TextOrd), name: ')' })
    } else {
        None
    }
}

fn lookup_part_11(mode: Mode, name: char) -> (r: Option<Symbol>)
    ensures
        r == table_part_11(mode, name),
{
    if mode == Mode::Text && name == '˚' {
        return Some(Symbol { mode: Mode::Text, font: Font::Main, group: Group::NonAtom(NonAtomGroup::AccentToken), name: '˚' });
    }
    if mode == Mode::Text && name == 'ˇ' {
        return Some(Symbol { mode: Mode::Text, font: Font::Main, group: Group::NonAtom(NonAtomGroup::AccentToken), name: 'ˇ' });
    }
    if mode == Mode::Text && name == '¨' {
        return Some(Symbol { mode: Mode::Text, font: Font::Main, group: Group::NonAtom(NonAtomGroup::AccentToken), name: '¨' });
    }
    if mode == Mode::Text && name == '˝' {
        return Some(Symbol { mode: Mode::Text, font: Font::Main, group: Group::NonAtom(NonAtomGroup::AccentToken), name: '˝' });
    }
    if mode == Mode::Text && name == '◯' {
        return Some(Symbol { mode: Mode::Text, font: Font::Main, group: Group::NonAtom(NonAtomGroup::AccentToken), name: '◯' });
    }
    if mode == Mode::Text && name == '–' {
        return Some(Symbol { mode: Mode::Text, font: Font::Main, group: Group::NonAtom(NonAtomGroup::TextOrd), name: '–' });
    }
    if mode == Mode::Text && name == '—' {
        return Some(Symbol { mode: Mode::Text, font: Font::Main, group: Group::NonAtom(NonAtomGroup::TextOrd), name: '—' });
    }
    if mode == Mode::Text && name == '‘' {
        return Some(Symbol { mode: Mode::Text, font: Font::Main, group: Group::NonAtom(NonAtomGroup::TextOrd), name: '‘' });
    }
    if mode == Mode::Text && name == '’' {
        return Some(Symbol { mode: Mode::Text, font: Font::Main, group: Group::NonAtom(NonAtomGroup::TextOrd), name: '’' });
    }
    if mode == Mode::Text && name == '“' {
        return Some(Symbol { mode: Mode::Text, font: Font::Main, group: Group::NonAtom(NonAtomGroup::TextOrd), name: '“' });
    }
    if mode == Mode::Text && name == '”' {
        return Some(Symbol { mode: Mode::Text, font: Font::Main, group: Group::NonAtom(NonAtomGroup::TextOrd), name: '”' });
    }
    if mode == Mode::Math && name == '°' {
        return Some(Symbol { mode: Mode::Math, font: Font::Main, group: Group::NonAtom(NonAtomGroup::TextOrd), name: '°' });
    }
    if mode == Mode::Text && name == '°' {
        return Some(Symbol { mode: Mode::Text, font: Font::Main, group: Group::NonAtom(NonAtomGroup::TextOrd), name: '°' });
    }
    if mode == Mode::Math && name == '£' {
        return Some(Symbol { mode: Mode::Math, font: Font::Main, group: Group::NonAtom(NonAtomGroup::TextOrd), name: '£' });
    }
    if mode == Mode::Text && name == '£' {
        return Some(Symbol { mode: Mode::Text, font: Font::Main, group: Group::NonAtom(NonAtomGroup::TextOrd), name: '£' });
    }
    if mode == Mode::Math && name == '✠' {
        return Some(Symbol { mode: Mode::Math, font: Font::Ams, group: Group::NonAtom(NonAtomGroup::TextOrd), name: '✠' });
    }
    if mode == Mode::Text && name == '✠' {
        return Some(Symbol { mode: Mode::Text, font: Font::Ams, group: Group::NonAtom(NonAtomGroup::TextOrd), name: '✠' });
    }
    if mode == Mode::Math && name == '0' {
        return Some(Symbol { mode: Mode::Math, font: Font::Main, group: Group::NonAtom(NonAtomGroup::MathOrd), name: '0' });
    }
    if mode == Mode::Math && name == '1' {
        return Some(Symbol { mode: Mode::Math, font: Font::Main, group: Group::NonAtom(NonAtomGroup::MathOrd), name: '1' });
    }
    if mode == Mode::Math && name == '2' {
        return Some(Symbol { mode: Mode::Math, font: Font::Main, group: Group::NonAtom(NonAtomGroup::MathOrd), name: '2' });
    }
    if mode == Mode::Math && name == '3' {
        return Some(Symbol { mode: Mode::Math, font: Font::Main, group: Group::NonAtom(NonAtomGroup::MathOrd), name: '3' });
    }
    if mode == Mode::Math && name == '4' {
        return Some(Symbol { mode: Mode::Math, font: Font::Main, group: Group::NonAtom(NonAtomGroup::MathOrd), name: '4' });
    }
    if mode == Mode::Math && name == '5' {
        return Some(Symbol { mode: Mode::Math, font: Font::Main, group: Group::NonAtom(NonAtomGroup::MathOrd), name: '5' });
    }
    if mode == Mode::Math && name == '6' {
        return Some(Symbol { mode: Mode::Math, font: Font::Main, group: Group::NonAtom(NonAtomGroup::MathOrd), name: '6' });
    }
    if mode == Mode::Math && name == '7' {
        return Some(Symbol { mode: Mode::Math, font: Font::Main, group: Group::NonAtom(NonAtomGroup::MathOrd), name: '7' });
    }
    if mode == Mode::Math && name == '8' {
        return Some(Symbol { mode: Mode::Math, font: Font::Main, group: Group::NonAtom(NonAtomGroup::MathOrd), name: '8' });
    }
    if mode == Mode::Math && name == '9' {
        return Some(Symbol { mode: Mode::Math, font: Font::Main, group: Group::NonAtom(NonAtomGroup::MathOrd), name: '9' });
    }
    if mode == Mode::Math && name == '/' {
        return Some(Symbol { mode: Mode::Math, font: Font::Main, group: Group::NonAtom(NonAtomGroup::TextOrd), name: '/' });
    }
    if mode == Mode::Math && name == '@' {
        return Some(Symbol { mode: Mode::Math, font: Font::Main, group: Group::NonAtom(NonAtomGroup::TextOrd), name: '@' });
    }
    if mode == Mode::Math && name == '"' {
        return Some(Symbol { mode: Mode::Math, font: Font::Main, group: Group::NonAtom(NonAtomGroup::TextOrd), name: '"' });
    }
    if mode == Mode::Text && name == '0' {
        return Some(Symbol { mode: Mode::Text, font: Font::Main, group: Group::NonAtom(NonAtomGroup::TextOrd), name: '0' });
    }
    if mode == Mode::Text && name == '1' {
        return Some(Symbol { mode: Mode::Text, font: Font::Main, group: Group::NonAtom(NonAtomGroup::TextOrd), name: '1' });
    }
    if mode == Mode::Text && name == '2' {
        return Some(Symbol { mode: Mode::Text, font: Font::Main, group: Group::NonAtom(NonAtomGroup::TextOrd), name: '2' });
    }
    if mode == Mode::Text && name == '3' {
        return Some(Symbol { mode: Mode::Text, font: Font::Main, group: Group::NonAtom(NonAtomGroup::TextOrd), name: '3' });
    }
    if mode == Mode::Text && name == '4' {
        return Some(Symbol { mode: Mode::Text, font: Font::Main, group: Group::NonAtom(NonAtomGroup::TextOrd), name: '4' });
    }
    if mode == Mode::Text && name == '5' {
        return Some(Symbol { mode: Mode::Text, font: Font::Main, group: Group::NonAtom(NonAtomGroup::TextOrd), name: '5' });
    }
    if mode == Mode::Text && name == '6' {
        return Some(Symbol { mode: Mode::Text, font: Font::Main, group: Group::NonAtom(NonAtomGroup::TextOrd), name: '6' });
    }
    if mode == Mode::Text && name == '7' {
        return Some(Symbol { mode: Mode::Text, font: Font::Main, group: Group::NonAtom(NonAtomGroup::TextOrd), name: '7' });
    }
    if mode == Mode::Text && name == '8' {
        return Some(Symbol { mode: Mode::Text, font: Font::Main, group: Group::NonAtom(NonAtomGroup::TextOrd), name: '8' });
    }
    if mode == Mode::Text && name == '9' {
        return Some(Symbol { mode: Mode::Text, font: Font::Main, group: Group::NonAtom(NonAtomGroup::TextOrd), name: '9' });
    }
    if mode == Mode::Text && name == '!' {
        return Some(Symbol { mode: Mode::Text, font: Font::Main, group: Group::NonAtom(NonAtomGroup::TextOrd), name: '!' });
    }
    if mode == Mode::Text && name == '@' {
        return Some(Symbol { mode: Mode::Text, font: Font::Main, group: Group::NonAtom(NonAtomGroup::TextOrd), name: '@' });
    }
    if mode == Mode::Text && name == '*' {
        return Some(Symbol { mode: Mode::Text, font: Font::Main, group: Group::NonAtom(NonAtomGroup::TextOrd), name: '*' });
    }
    if mode == Mode::Text && name == '(' {
        return Some(Symbol { mode: Mode::Text, font: Font::Main, group: Group::NonAtom(NonAtomGroup::TextOrd), name: '(' });
    }
    if mode == Mode::Text && name == ')' {
        return Some(Symbol { mode: Mode::Text, font: Font::Main, group: Group::NonAtom(NonAtomGroup::TextOrd), name: ')' });
    }
    None
}

/// One part of the bulk symbol table.
pub open spec fn table_part_12(mode: Mode, name: char) -> Option<Symbol> {
    if mode == Mode::Text && name == '-' {
        Some(Symbol { mode: Mode::Text, font: Font::Main, group: Group::NonAtom(NonAtomGroup::TextOrd), name: '-' })
    } else if mode == Mode::Text && name == '=' {
        Some(Symbol { mode: Mode::Text, font: Font::Main, group: Group::NonAtom(NonAtomGroup::TextOrd), name: '=' })
    } else if mode == Mode::Text && name == '+' {
        Some(Symbol { mode: Mode::Text, font: Font::Main, group: Group::NonAtom(NonAtomGroup::TextOrd), name: '+' })
    } else if mode == Mode::Text && name == '"' {
        Some(Symbol { mode: Mode::Text, font: Font::Main, group: Group::NonAtom(NonAtomGroup::TextOrd), name: '"' })
    } else if mode == Mode::Text && name == ';' {
        Some(Symbol { mode: Mode::Text, font: Font::Main, group: Group::NonAtom(NonAtomGroup::TextOrd), name: ';' })
    } else if mode == Mode::Text && name == ':' {
        Some(Symbol { mode: Mode::Text, font: Font::Main, group: Group::NonAtom(NonAtomGroup::TextOrd), name: ':' })
    } else if mode == Mode::Text && name == '?' {
        Some(Symbol { mode: Mode::Text, font: Font::Main, group: Group::NonAtom(NonAtomGroup::TextOrd), name: '?' })
    } else if mode == Mode::Text && name == '/' {
        Some(Symbol { mode: Mode::Text, font: Font::Main, group: Group::NonAtom(NonAtomGroup::TextOrd), name: '/' })
    } else if mode == Mode::Text && name == '.' {
        Some(Symbol { mode: Mode::Text, font: Font::Main, group: Group::NonAtom(NonAtomGroup::TextOrd), name: '.' })
    } else if mode == Mode::Text && name == ',' {
        Some(Symbol { mode: Mode::Text, font: Font::Main, group: Group::NonAtom(NonAtomGroup::TextOrd), name: ',' })
    } else if mode == Mode::Text && name == 'A' {
        Some(Symbol { mode: Mode::Text, font: Font::Main, group: Group::NonAtom(NonAtomGroup::TextOrd), name: 'A' })
    } else if mode == Mode::Text && name == 'B' {
        Some(Symbol { mode: Mode::Text, font: Font::Main, group: Group::NonAtom(NonAtomGroup::TextOrd), name: 'B' })
    } else if mode == Mode::Math && name == 'C' {
        Some(Symbol { mode: Mode::Math, font: Font::Main, group: Group::NonAtom(NonAtomGroup::MathOrd), name: 'C' })
    } else if mode == Mode::Text && name == 'C' {
        Some(Symbol { mode: Mode::Text, font: Font::Main, group: Group::NonAtom(NonAtomGroup::TextOrd), name: 'C' })
    } else if mode == Mode::Math && name == 'D' {
        Some(Symbol { mode: Mode::Math, font: Font::Main, group: Group::NonAtom(NonAtomGroup::MathOrd), name: 'D' })
    } else if mode == Mode::Text && name == 'D' {
        Some(Symbol { mode: Mode::Text, font: Font::Main, group: Group::NonAtom(NonAtomGroup::TextOrd), name: 'D' })
    } else if mode == Mode::Text && name == 'E' {
        Some(Symbol { mode: Mode::Text, font: Font::Main, group: Group::NonAtom(NonAtomGroup::TextOrd), name: 'E' })
    } else if mode == Mode::Math && name == 'F' {
        Some(Symbol { mode: Mode::Math, font: Font::Main, group: Group::NonAtom(NonAtomGroup::MathOrd), name: 'F' })
    } else if mode == Mode::Text && name == 'F' {
        Some(Symbol { mode: Mode::Text, font: Font::Main, group: Group::NonAtom(NonAtomGroup::TextOrd), name: 'F' })
    } else if mode == Mode::Math && name == 'G' {
        Some(Symbol { mode: Mode::Math, font: Font::Main, group: Group::NonAtom(NonAtomGroup::MathOrd), name: 'G' })
    } else if mode == Mode::Text && name == 'G' {
        Some(Symbol { mode: Mode::Text, font: Font::Main, group: Group::NonAtom(NonAtomGroup::TextOrd), name: 'G' })
    } else if mode == Mode::Text && name == 'H' {
        Some(Symbol { mode: Mode::Text, font: Font::Main, group: Group::NonAtom(NonAtomGroup::TextOrd), name: 'H' })
    } else if mode == Mode::Text && name == 'I' {
        Some(Symbol { mode: Mode::Text, font: Font::Main, group: Group::NonAtom(NonAtomGroup::TextOrd), name: 'I' })
    } else if mode == Mode::Math && name == 'J' {
        Some(Symbol { mode: Mode::Math, font: Font::Main, group: Group::NonAtom(NonAtomGroup::MathOrd), name: 'J' })
    } else if mode == Mode::Text && name == 'J' {
        Some(Symbol { mode: Mode::Text, font: Font::Main, group: Group::NonAtom(NonAtomGroup::TextOrd), name: 'J' })
    } else if mode == Mode::Text && name == 'K' {
        Some(Symbol { mode: Mode::Text, font: Font::Main, group: Group::NonAtom(NonAtomGroup::TextOrd), name: 'K' })
    } else if mode == Mode::Math && name == 'L' {
        Some(Symbol { mode: Mode::Math, font: Font::Main, group: Group::NonAtom(NonAtomGroup::MathOrd), name: 'L' })
    } else if mode == Mode::Text && name == 'L' {
        Some(Symbol { mode: Mode::Text, font: Font::Main, group: Group::NonAtom(NonAtomGroup::TextOrd), name: 'L' })
    } else if mode == Mode::Text && name == 'M' {
        Some(Symbol { mode: Mode::Text, font: Font::Main, group: Group::NonAtom(NonAtomGroup::TextOrd), name: 'M' })
    } else if mode == Mode::Text && name == 'N' {
        Some(Symbol { mode: Mode::Text, font: Font::Main, group: Group::NonAtom(NonAtomGroup::TextOrd), name: 'N' })
    } else if mode == Mode::Text && name == 'O' {
        Some(Symbol { mode: Mode::Text, font: Font::Main, group: Group::NonAtom(NonAtomGroup::TextOrd), name: 'O' })
    } else if mode == Mode::Text && name == 'P' {
        Some(Symbol { mode: Mode::Text, font: Font::Main, group: Group::NonAtom(NonAtomGroup::TextOrd), name: 'P' })
    } else if mode == Mode::Math && name == 'Q' {
        Some(Symbol { mode: Mode::Math, font: Font::Main, group: Group::NonAtom(NonAtomGroup::MathOrd), name: 'Q' })
    } else if mode == Mode::Text && name == 'Q' {
        Some(Symbol { mode: Mode::Text, font: Font::Main, group: Group::NonAtom(NonAtomGroup::TextOrd), name: 'Q' })
    } else if mode == Mode::Math && name == 'R' {
        Some(Symbol { mode: Mode::Math, font: Font::Main, group: Group::NonAtom(NonAtomGroup::MathOrd), name: 'R' })
    } else if mode == Mode::Text && name == 'R' {
        Some(Symbol { mode: Mode::Text, font: Font::Main, group: Group::NonAtom(NonAtomGroup::TextOrd), name: 'R' })
    } else if mode == Mode::Math && name == 'S' {
        Some(Symbol { mode: Mode::Math, font: Font::Main, group: Group::NonAtom(NonAtomGroup::MathOrd), name: 'S' })
    } else if mode == Mode::Text && name == 'S' {
        Some(Symbol { mode: Mode::Text, font: Font::Main, group: Group::NonAtom(NonAtomGroup::TextOrd), name: 'S' })
    } else if mode == Mode::Text && name == 'T' {
        Some(Symbol { mode: Mode::Text, font: Font::Main, group: Group::NonAtom(NonAtomGroup::TextOrd), name: 'T' })
    } else if mode == Mode::Math && name == 'U' {
        Some(Symbol { mode: Mode::Math, font: Font::Main, group: Group::NonAtom(NonAtomGroup::MathOrd), name: 'U' })
    } else if mode == Mode::Text && name == 'U' {
        Some(Symbol { mode: Mode::Text, font: Font::Main, group: Group::NonAtom(NonAtomGroup::TextOrd), name: 'U' })
    } else if mode == Mode::Math && name == 'V' {
        Some(Symbol { mode: Mode::Math, font: Font::Main, group: Group::NonAtom(NonAtomGroup::MathOrd), name: 'V' })
    } else if mode == Mode::Text && name == 'V' {
        Some(Symbol { mode: Mode::Text, font: Font::Main, group: Group::NonAtom(NonAtomGroup::TextOrd), name: 'V' })
    } else if mode == Mode::Math && name == 'W' {
        Some(Symbol { mode: Mode::Math, font: Font::Main, group: Group::NonAtom(NonAtomGroup::MathOrd), name: 'W' })
    } else if mode == Mode::Text && name == 'W' {
        Some(Symbol { mode: Mode::Text, font: Font::Main, group: Group::NonAtom(NonAtomGroup::TextOrd), name: 'W' })
    } else {
        None
    }
}

fn lookup_part_12(mode: Mode, name: char) -> (r: Option<Symbol>)
    ensures
        r == table_part_12(mode, name),
{
    if mode == Mode::Text && name == '-' {
        return Some(Symbol { mode: Mode::Text, font: Font::Main, group: Group::NonAtom(NonAtomGroup::TextOrd), name: '-' });
    }
    if mode == Mode::Text && name == '=' {
        return Some(Symbol { mode: Mode::Text, font: Font::Main, group: Group::NonAtom(NonAtomGroup::TextOrd), name: '=' });
    }
    if mode == Mode::Text && name == '+' {
        return Some(Symbol { mode: Mode::Text, font: Font::Main, group: Group::NonAtom(NonAtomGroup::TextOrd), name: '+' });
    }
    if mode == Mode::Text && name == '"' {
        return Some(Symbol { mode: Mode::Text, font: Font::Main, group: Group::NonAtom(NonAtomGroup::TextOrd), name: '"' });
    }
    if mode == Mode::Text && name == ';' {
        return Some(Symbol { mode: Mode::Text, font: Font::Main, group: Group::NonAtom(NonAtomGroup::TextOrd), name: ';' });
    }
    if mode == Mode::Text && name == ':' {
        return Some(Symbol { mode: Mode::Text, font: Font::Main, group: Group::NonAtom(NonAtomGroup::TextOrd), name: ':' });
    }
    if mode == Mode::Text && name == '?' {
        return Some(Symbol { mode: Mode::Text, font: Font::Main, group: Group::NonAtom(NonAtomGroup::TextOrd), name: '?' });
    }
    if mode == Mode::Text && name == '/' {
        return Some(Symbol { mode: Mode::Text, font: Font::Main, group: Group::NonAtom(NonAtomGroup::TextOrd), name: '/' });
    }
    if mode == Mode::Text && name == '.' {
        return Some(Symbol { mode: Mode::Text, font: Font::Main, group: Group::NonAtom(NonAtomGroup::TextOrd), name: '.' });
    }
    if mode == Mode::Text && name == ',' {
        return Some(Symbol { mode: Mode::Text, font: Font::Main, group: Group::NonAtom(NonAtomGroup::TextOrd), name: ',' });
    }
    if mode == Mode::Text && name == 'A' {
        return Some(Symbol { mode: Mode::Text, font: Font::Main, group: Group::NonAtom(NonAtomGroup::TextOrd), name: 'A' });
    }
    if mode == Mode::Text && name == 'B' {
        return Some(Symbol { mode: Mode::Text, font: Font::Main, group: Group::NonAtom(NonAtomGroup::TextOrd), name: 'B' });
    }
    if mode == Mode::Math && name == 'C' {
        return Some(Symbol { mode: Mode::Math, font: Font::Main, group: Group::NonAtom(NonAtomGroup::MathOrd), name: 'C' });
    }
    if mode == Mode::Text && name == 'C' {
        return Some(Symbol { mode: Mode::Text, font: Font::Main, group: Group::NonAtom(NonAtomGroup::TextOrd), name: 'C' });
    }
    if mode == Mode::Math && name == 'D' {
        return Some(Symbol { mode: Mode::Math, font: Font::Main, group: Group::NonAtom(NonAtomGroup::MathOrd), name: 'D' });
    }
    if mode == Mode::Text && name == 'D' {
        return Some(Symbol { mode: Mode::Text, font: Font::Main, group: Group::NonAtom(NonAtomGroup::TextOrd), name: 'D' });
    }
    if mode == Mode::Text && name == 'E' {
        return Some(Symbol { mode: Mode::Text, font: Font::Main, group: Group::NonAtom(NonAtomGroup::TextOrd), name: 'E' });
    }
    if mode == Mode::Math && name == 'F' {
        return Some(Symbol { mode: Mode::Math, font: Font::Main, group: Group::NonAtom(NonAtomGroup::MathOrd), name: 'F' });
    }
    if mode == Mode::Text && name == 'F' {
        return Some(Symbol { mode: Mode::Text, font: Font::Main, group: Group::NonAtom(NonAtomGroup::TextOrd), name: 'F' });
    }
    if mode == Mode::Math && name == 'G' {
        return Some(Symbol { mode: Mode::Math, font: Font::Main, group: Group::NonAtom(NonAtomGroup::MathOrd), name: 'G' });
    }
    if mode == Mode::Text && name == 'G' {
        return Some(Symbol { mode: Mode::Text, font: Font::Main, group: Group::NonAtom(NonAtomGroup::TextOrd), name: 'G' });
    }
    if mode == Mode::Text && name == 'H' {
        return Some(Symbol { mode: Mode::Text, font: Font::Main, group: Group::NonAtom(NonAtomGroup::TextOrd), name: 'H' });
    }
    if mode == Mode::Text && name == 'I' {
        return Some(Symbol { mode: Mode::Text, font: Font::Main, group: Group::NonAtom(NonAtomGroup::TextOrd), name: 'I' });
    }
    if mode == Mode::Math && name == 'J' {
        return Some(Symbol { mode: Mode::Math, font: Font::Main, group: Group::NonAtom(NonAtomGroup::MathOrd), name: 'J' });
    }
    if mode == Mode::Text && name == 'J' {
        return Some(Symbol { mode: Mode::Text, font: Font::Main, group: Group::NonAtom(NonAtomGroup::TextOrd), name: 'J' });
    }
    if mode == Mode::Text && name == 'K' {
        return Some(Symbol { mode: Mode::Text, font: Font::Main, group: Group::NonAtom(NonAtomGroup::TextOrd), name: 'K' });
    }
    if mode == Mode::Math && name == 'L' {
        return Some(Symbol { mode: Mode::Math, font: Font::Main, group: Group::NonAtom(NonAtomGroup::MathOrd), name: 'L' });
    }
    if mode == Mode::Text && name == 'L' {
        return Some(Symbol { mode: Mode::Text, font: Font::Main, group: Group::NonAtom(NonAtomGroup::TextOrd), name: 'L' });
    }
    if mode == Mode::Text && name == 'M' {
        return Some(Symbol { mode: Mode::Text, font: Font::Main, group: Group::NonAtom(NonAtomGroup::TextOrd), name: 'M' });
    }
    if mode == Mode::Text && name == 'N' {
        return Some(Symbol { mode: Mode::Text, font: Font::Main, group: Group::NonAtom(NonAtomGroup::TextOrd), name: 'N' });
    }
    if mode == Mode::Text && name == 'O' {
        return Some(Symbol { mode: Mode::Text, font: Font::Main, group: Group::NonAtom(NonAtomGroup::TextOrd), name: 'O' });
    }
    if mode == Mode::Text && name == 'P' {
        return Some(Symbol { mode: Mode::Text, font: Font::Main, group: Group::NonAtom(NonAtomGroup::TextOrd), name: 'P' });
    }
    if mode == Mode::Math && name == 'Q' {
        return Some(Symbol { mode: Mode::Math, font: Font::Main, group: Group::NonAtom(NonAtomGroup::MathOrd), name: 'Q' });
    }
    if mode == Mode::Text && name == 'Q' {
        return Some(Symbol { mode: Mode::Text, font: Font::Main, group: Group::NonAtom(NonAtomGroup::TextOrd), name: 'Q' });
    }
    if mode == Mode::Math && name == 'R' {
        return Some(Symbol { mode: Mode::Math, font: Font::Main, group: Group::NonAtom(NonAtomGroup::MathOrd), name: 'R' });
    }
    if mode == Mode::Text && name == 'R' {
        return Some(Symbol { mode: Mode::Text, font: Font::Main, group: Group::NonAtom(NonAtomGroup::TextOrd), name: 'R' });
    }
    if mode == Mode::Math && name == 'S' {
        return Some(Symbol { mode: Mode::Math, font: Font::Main, group: Group::NonAtom(NonAtomGroup::MathOrd), name: 'S' });
    }
    if mode == Mode::Text && name == 'S' {
        return Some(Symbol { mode: Mode::Text, font: Font::Main, group: Group::NonAtom(NonAtomGroup::TextOrd), name: 'S' });
    }
    if mode == Mode::Text && name == 'T' {
        return Some(Symbol { mode: Mode::Text, font: Font::Main, group: Group::NonAtom(NonAtomGroup::TextOrd), name: 'T' });
    }
    if mode == Mode::Math && name == 'U' {
        return Some(Symbol { mode: Mode::Math, font: Font::Main, group: Group::NonAtom(NonAtomGroup::MathOrd), name: 'U' });
    }
    if mode == Mode::Text && name == 'U' {
        return Some(Symbol { mode: Mode::Text, font: Font::Main, group: Group::NonAtom(NonAtomGroup::TextOrd), name: 'U' });
    }
    if mode == Mode::Math && name == 'V' {
        return Some(Symbol { mode: Mode::Math, font: Font::Main, group: Group::NonAtom(NonAtomGroup::MathOrd), name: 'V' });
    }
    if mode == Mode::Text && name == 'V' {
        return Some(Symbol { mode: Mode::Text, font: Font::Main, group: Group::NonAtom(NonAtomGroup::TextOrd), name: 'V' });
    }
    if mode == Mode::Math && name == 'W' {
        return Some(Symbol { mode: Mode::Math, font: Font::Main, group: Group::NonAtom(NonAtomGroup::MathOrd), name: 'W' });
    }
    if mode == Mode::Text && name == 'W' {
        return Some(Symbol { mode: Mode::Text, font: Font::Main, group: Group::NonAtom(NonAtomGroup::TextOrd), name: 'W' });
    }
    None
}

/// One part of the bulk symbol table.
pub open spec fn table_part_13(mode: Mode, name: char) -> Option<Symbol> {
    if mode == Mode::Text && name == 'X' {
        Some(Symbol { mode: Mode::Text, font: Font::Main, group: Group::NonAtom(NonAtomGroup::TextOrd), name: 'X' })
    } else if mode == Mode::Math && name == 'Y' {
        Some(Symbol { mode: Mode::Math, font: Font::Main, group: Group::NonAtom(NonAtomGroup::MathOrd), name: 'Y' })
    } else if mode == Mode::Text && name == 'Y' {
        Some(Symbol { mode: Mode::Text, font: Font::Main, group: Group::NonAtom(NonAtomGroup::TextOrd), name: 'Y' })
    } else if mode == Mode::Text && name == 'Z' {
        Some(Symbol { mode: Mode::Text, font: Font::Main, group: Group::NonAtom(NonAtomGroup::TextOrd), name: 'Z' })
    } else if mode == Mode::Math && name == 'a' {
        Some(Symbol { mode: Mode::Math, font: Font::Main, group: Group::NonAtom(NonAtomGroup::MathOrd), name: 'a' })
    } else if mode == Mode::Text && name == 'a' {
        Some(Symbol { mode: Mode::Text, font: Font::Main, group: Group::NonAtom(NonAtomGroup::TextOrd), name: 'a' })
    } else if mode == Mode::Math && name == 'b' {
        Some(Symbol { mode: Mode::Math, font: Font::Main, group: Group::NonAtom(NonAtomGroup::MathOrd), name: 'b' })
    } else if mode == Mode::Text && name == 'b' {
        Some(Symbol { mode: Mode::Text, font: Font::Main, group: Group::NonAtom(NonAtomGroup::TextOrd), name: 'b' })
    } else if mode == Mode::Math && name == 'c' {
        Some(Symbol { mode: Mode::Math, font: Font::Main, group: Group::NonAtom(NonAtomGroup::MathOrd), name: 'c' })
    } else if mode == Mode::Text && name == 'c' {
        Some(Symbol { mode: Mode::Text, font: Font::Main, group: Group::NonAtom(NonAtomGroup::TextOrd), name: 'c' })
    } else if mode == Mode::Math && name == 'd' {
        Some(Symbol { mode: Mode::Math, font: Font::Main, group: Group::NonAtom(NonAtomGroup::MathOrd), name: 'd' })
    } else if mode == Mode::Text && name == 'd' {
        Some(Symbol { mode: Mode::Text, font: Font::Main, group: Group::NonAtom(NonAtomGroup::TextOrd), name: 'd' })
    } else if mode == Mode::Math && name == 'e' {
        Some(Symbol { mode: Mode::Math, font: Font::Main, group: Group::NonAtom(NonAtomGroup::MathOrd), name: 'e' })
    } else if mode == Mode::Text && name == 'e' {
        Some(Symbol { mode: Mode::Text, font: Font::Main, group: Group::NonAtom(NonAtomGroup::TextOrd), name: 'e' })
    } else if mode == Mode::Math && name == 'f' {
        Some(Symbol { mode: Mode::Math, font: Font::Main, group: Group::NonAtom(NonAtomGroup::MathOrd), name: 'f' })
    } else if mode == Mode::Text && name == 'f' {
        Some(Symbol { mode: Mode::Text, font: Font::Main, group: Group::NonAtom(NonAtomGroup::TextOrd), name: 'f' })
    } else if mode == Mode::Math && name == 'g' {
        Some(Symbol { mode: Mode::Math, font: Font::Main, group: Group::NonAtom(NonAtomGroup::MathOrd), name: 'g' })
    } else if mode == Mode::Text && name == 'g' {
        Some(Symbol { mode: Mode::Text, font: Font::Main, group: Group::NonAtom(NonAtomGroup::TextOrd), name: 'g' })
    } else if mode == Mode::Math && name == 'h' {
        Some(Symbol { mode: Mode::Math, font: Font::Main, group: Group::NonAtom(NonAtomGroup::MathOrd), name: 'h' })
    } else if mode == Mode::Text && name == 'h' {
        Some(Symbol { mode: Mode::Text, font: Font::Main, group: Group::NonAtom(NonAtomGroup::TextOrd), name: 'h' })
    } else if mode == Mode::Math && name == 'i' {
        Some(Symbol { mode: Mode::Math, font: Font::Main, group: Group::NonAtom(NonAtomGroup::MathOrd), name: 'i' })
    } else if mode == Mode::Text && name == 'i' {
        Some(Symbol { mode: Mode::Text, font: Font::Main, group: Group::NonAtom(NonAtomGroup::TextOrd), name: 'i' })
    } else if mode == Mode::Math && name == 'j' {
        Some(Symbol { mode: Mode::Math, font: Font::Main, group: Group::NonAtom(NonAtomGroup::MathOrd), name: 'j' })
    } else if mode == Mode::Text && name == 'j' {
        Some(Symbol { mode: Mode::Text, font: Font::Main, group: Group::NonAtom(NonAtomGroup::TextOrd), name: 'j' })
    } else if mode == Mode::Math && name == 'k' {
        Some(Symbol { mode: Mode::Math, font: Font::Main, group: Group::NonAtom(NonAtomGroup::MathOrd), name: 'k' })
    } else if mode == Mode::Text && name == 'k' {
        Some(Symbol { mode: Mode::Text, font: Font::Main, group: Group::NonAtom(NonAtomGroup::TextOrd), name: 'k' })
    } else if mode == Mode::Math && name == 'l' {
        Some(Symbol { mode: Mode::Math, font: Font::Main, group: Group::NonAtom(NonAtomGroup::MathOrd), name: 'l' })
    } else if mode == Mode::Text && name == 'l' {
        Some(Symbol { mode: Mode::Text, font: Font::Main, group: Group::NonAtom(NonAtomGroup::TextOrd), name: 'l' })
    } else if mode == Mode::Math && name == 'm' {
        Some(Symbol { mode: Mode::Math, font: Font::Main, group: Group::NonAtom(NonAtomGroup::MathOrd), name: 'm' })
    } else if mode == Mode::Text && name == 'm' {
        Some(Symbol { mode: Mode::Text, font: Font::Main, group: Group::NonAtom(NonAtomGroup::TextOrd), name: 'm' })
    } else if mode == Mode::Math && name == 'n' {
        Some(Symbol { mode: Mode::Math, font: Font::Main, group: Group::NonAtom(NonAtomGroup::MathOrd), name: 'n' })
    } else if mode == Mode::Text && name == 'n' {
        Some(Symbol { mode: Mode::Text, font: Font::Main, group: Group::NonAtom(NonAtomGroup::TextOrd), name: 'n' })
    } else if mode == Mode::Math && name == 'o' {
        Some(Symbol { mode: Mode::Math, font: Font::Main, group: Group::NonAtom(NonAtomGroup::MathOrd), name: 'o' })
    } else if mode == Mode::Text && name == 'o' {
        Some(Symbol { mode: Mode::Text, font: Font::Main, group: Group::NonAtom(NonAtomGroup::TextOrd), name: 'o' })
    } else if mode == Mode::Math && name == 'p' {
        Some(Symbol { mode: Mode::Math, font: Font::Main, group: Group::NonAtom(NonAtomGroup::MathOrd), name: 'p' })
    } else if mode == Mode::Text && name == 'p' {
        Some(Symbol { mode: Mode::Text, font: Font::Main, group: Group::NonAtom(NonAtomGroup::TextOrd), name: 'p' })
    } else if mode == Mode::Math && name == 'q' {
        Some(Symbol { mode: Mode::Math, font: Font::Main, group: Group::NonAtom(NonAtomGroup::MathOrd), name: 'q' })
    } else if mode == Mode::Text && name == 'q' {
        Some(Symbol { mode: Mode::Text, font: Font::Main, group: Group::NonAtom(NonAtomGroup::TextOrd), name: 'q' })
    } else if mode == Mode::Math && name == 'r' {
        Some(Symbol { mode: Mode::Math, font: Font::Main, group: Group::NonAtom(NonAtomGroup::MathOrd), name: 'r' })
    } else if mode == Mode::Text && name == 'r' {
        Some(Symbol { mode: Mode::Text, font: Font::Main, group: Group::NonAtom(NonAtomGroup::TextOrd), name: 'r' })
    } else if mode == Mode::Math && name == 's' {
        Some(Symbol { mode: Mode::Math, font: Font::Main, group: Group::NonAtom(NonAtomGroup::MathOrd), name: 's' })
    } else if mode == Mode::Text && name == 's' {
        Some(Symbol { mode: Mode::Text, font: Font::Main, group: Group::NonAtom(NonAtomGroup::TextOrd), name: 's' })
    } else if mode == Mode::Math && name == 't' {
        Some(Symbol { mode: Mode::Math, font: Font::Main, group: Group::NonAtom(NonAtomGroup::MathOrd), name: 't' })
    } else if mode == Mode::Text && name == 't' {
        Some(Symbol { mode: Mode::Text, font: Font::Main, group: Group::NonAtom(NonAtomGroup::TextOrd), name: 't' })
    } else if mode == Mode::Math && name == 'u' {
        Some(Symbol { mode: Mode::Math, font: Font::Main, group: Group::NonAtom(NonAtomGroup::MathOrd), name: 'u' })
    } else {
        None
    }
}

fn lookup_part_13(mode: Mode, name: char) -> (r: Option<Symbol>)
    ensures
        r == table_part_13(mode, name),
{
    if mode == Mode::Text && name == 'X' {
        return Some(Symbol { mode: Mode::Text, font: Font::Main, group: Group::NonAtom(NonAtomGroup::TextOrd), name: 'X' });
    }
    if mode == Mode::Math && name == 'Y' {
        return Some(Symbol { mode: Mode::Math, font: Font::Main, group: Group::NonAtom(NonAtomGroup::MathOrd), name: 'Y' });
    }
    if mode == Mode::Text && name == 'Y' {
        return Some(Symbol { mode: Mode::Text, font: Font::Main, group: Group::NonAtom(NonAtomGroup::TextOrd), name: 'Y' });
    }
    if mode == Mode::Text && name == 'Z' {
        return Some(Symbol { mode: Mode::Text, font: Font::Main, group: Group::NonAtom(NonAtomGroup::TextOrd), name: 'Z' });
    }
    if mode == Mode::Math && name == 'a' {
        return Some(Symbol { mode: Mode::Math, font: Font::Main, group: Group::NonAtom(NonAtomGroup::MathOrd), name: 'a' });
    }
    if mode == Mode::Text && name == 'a' {
        return Some(Symbol { mode: Mode::Text, font: Font::Main, group: Group::NonAtom(NonAtomGroup::TextOrd), name: 'a' });
    }
    if mode == Mode::Math && name == 'b' {
        return Some(Symbol { mode: Mode::Math, font: Font::Main, group: Group::NonAtom(NonAtomGroup::MathOrd), name: 'b' });
    }
    if mode == Mode::Text && name == 'b' {
        return Some(Symbol { mode: Mode::Text, font: Font::Main, group: Group::NonAtom(NonAtomGroup::TextOrd), name: 'b' });
    }
    if mode == Mode::Math && name == 'c' {
        return Some(Symbol { mode: Mode::Math, font: Font::Main, group: Group::NonAtom(NonAtomGroup::MathOrd), name: 'c' });
    }
    if mode == Mode::Text && name == 'c' {
        return Some(Symbol { mode: Mode::Text, font: Font::Main, group: Group::NonAtom(NonAtomGroup::TextOrd), name: 'c' });
    }
    if mode == Mode::Math && name == 'd' {
        return Some(Symbol { mode: Mode::Math, font: Font::Main, group: Group::NonAtom(NonAtomGroup::MathOrd), name: 'd' });
    }
    if mode == Mode::Text && name == 'd' {
        return Some(Symbol { mode: Mode::Text, font: Font::Main, group: Group::NonAtom(NonAtomGroup::TextOrd), name: 'd' });
    }
    if mode == Mode::Math && name == 'e' {
        return Some(Symbol { mode: Mode::Math, font: Font::Main, group: Group::NonAtom(NonAtomGroup::MathOrd), name: 'e' });
    }
    if mode == Mode::Text && name == 'e' {
        return Some(Symbol { mode: Mode::Text, font: Font::Main, group: Group::NonAtom(NonAtomGroup::TextOrd), name: 'e' });
    }
    if mode == Mode::Math && name == 'f' {
        return Some(Symbol { mode: Mode::Math, font: Font::Main, group: Group::NonAtom(NonAtomGroup::MathOrd), name: 'f' });
    }
    if mode == Mode::Text && name == 'f' {
        return Some(Symbol { mode: Mode::Text, font: Font::Main, group: Group::NonAtom(NonAtomGroup::TextOrd), name: 'f' });
    }
    if mode == Mode::Math && name == 'g' {
        return Some(Symbol { mode: Mode::Math, font: Font::Main, group: Group::NonAtom(NonAtomGroup::MathOrd), name: 'g' });
    }
    if mode == Mode::Text && name == 'g' {
        return Some(Symbol { mode: Mode::Text, font: Font::Main, group: Group::NonAtom(NonAtomGroup::TextOrd), name: 'g' });
    }
    if mode == Mode::Math && name == 'h' {
        return Some(Symbol { mode: Mode::Math, font: Font::Main, group: Group::NonAtom(NonAtomGroup::MathOrd), name: 'h' });
    }
    if mode == Mode::Text && name == 'h' {
        return Some(Symbol { mode: Mode::Text, font: Font::Main, group: Group::NonAtom(NonAtomGroup::TextOrd), name: 'h' });
    }
    if mode == Mode::Math && name == 'i' {
        return Some(Symbol { mode: Mode::Math, font: Font::Main, group: Group::NonAtom(NonAtomGroup::MathOrd), name: 'i' });
    }
    if mode == Mode::Text && name == 'i' {
        return Some(Symbol { mode: Mode::Text, font: Font::Main, group: Group::NonAtom(NonAtomGroup::TextOrd), name: 'i' });
    }
    if mode == Mode::Math && name == 'j' {
        return Some(Symbol { mode: Mode::Math, font: Font::Main, group: Group::NonAtom(NonAtomGroup::MathOrd), name: 'j' });
    }
    if mode == Mode::Text && name == 'j' {
        return Some(Symbol { mode: Mode::Text, font: Font::Main, group: Group::NonAtom(NonAtomGroup::TextOrd), name: 'j' });
    }
    if mode == Mode::Math && name == 'k' {
        return Some(Symbol { mode: Mode::Math, font: Font::Main, group: Group::NonAtom(NonAtomGroup::MathOrd), name: 'k' });
    }
    if mode == Mode::Text && name == 'k' {
        return Some(Symbol { mode: Mode::Text, font: Font::Main, group: Group::NonAtom(NonAtomGroup::TextOrd), name: 'k' });
    }
    if mode == Mode::Math && name == 'l' {
        return Some(Symbol { mode: Mode::Math, font: Font::Main, group: Group::NonAtom(NonAtomGroup::MathOrd), name: 'l' });
    }
    if mode == Mode::Text && name == 'l' {
        return Some(Symbol { mode: Mode::Text, font: Font::Main, group: Group::NonAtom(NonAtomGroup::TextOrd), name: 'l' });
    }
    if mode == Mode::Math && name == 'm' {
        return Some(Symbol { mode: Mode::Math, font: Font::Main, group: Group::NonAtom(NonAtomGroup::MathOrd), name: 'm' });
    }
    if mode == Mode::Text && name == 'm' {
        return Some(Symbol { mode: Mode::Text, font: Font::Main, group: Group::NonAtom(NonAtomGroup::TextOrd), name: 'm' });
    }
    if mode == Mode::Math && name == 'n' {
        return Some(Symbol { mode: Mode::Math, font: Font::Main, group: Group::NonAtom(NonAtomGroup::MathOrd), name: 'n' });
    }
    if mode == Mode::Text && name == 'n' {
        return Some(Symbol { mode: Mode::Text, font: Font::Main, group: Group::NonAtom(NonAtomGroup::TextOrd), name: 'n' });
    }
    if mode == Mode::Math && name == 'o' {
        return Some(Symbol { mode: Mode::Math, font: Font::Main, group: Group::NonAtom(NonAtomGroup::MathOrd), name: 'o' });
    }
    if mode == Mode::Text && name == 'o' {
        return Some(Symbol { mode: Mode::Text, font: Font::Main, group: Group::NonAtom(NonAtomGroup::TextOrd), name: 'o' });
    }
    if mode == Mode::Math && name == 'p' {
        return Some(Symbol { mode: Mode::Math, font: Font::Main, group: Group::NonAtom(NonAtomGroup::MathOrd), name: 'p' });
    }
    if mode == Mode::Text && name == 'p' {
        return Some(Symbol { mode: Mode::Text, font: Font::Main, group: Group::NonAtom(NonAtomGroup::TextOrd), name: 'p' });
    }
    if mode == Mode::Math && name == 'q' {
        return Some(Symbol { mode: Mode::Math, font: Font::Main, group: Group::NonAtom(NonAtomGroup::MathOrd), name: 'q' });
    }
    if mode == Mode::Text && name == 'q' {
        return Some(Symbol { mode: Mode::Text, font: Font::Main, group: Group::NonAtom(NonAtomGroup::TextOrd), name: 'q' });
    }
    if mode == Mode::Math && name == 'r' {
        return Some(Symbol { mode: Mode::Math, font: Font::Main, group: Group::NonAtom(NonAtomGroup::MathOrd), name: 'r' });
    }
    if mode == Mode::Text && name == 'r' {
        return Some(Symbol { mode: Mode::Text, font: Font::Main, group: Group::NonAtom(NonAtomGroup::TextOrd), name: 'r' });
    }
    if mode == Mode::Math && name == 's' {
        return Some(Symbol { mode: Mode::Math, font: Font::Main, group: Group::NonAtom(NonAtomGroup::MathOrd), name: 's' });
    }
    if mode == Mode::Text && name == 's' {
        return Some(Symbol { mode: Mode::Text, font: Font::Main, group: Group::NonAtom(NonAtomGroup::TextOrd), name: 's' });
    }
    if mode == Mode::Math && name == 't' {
        return Some(Symbol { mode: Mode::Math, font: Font::Main, group: Group::NonAtom(NonAtomGroup::MathOrd), name: 't' });
    }
    if mode == Mode::Text && name == 't' {
        return Some(Symbol { mode: Mode::Text, font: Font::Main, group: Group::NonAtom(NonAtomGroup::TextOrd), name: 't' });
    }
    if mode == Mode::Math && name == 'u' {
        return Some(Symbol { mode: Mode::Math, font: Font::Main, group: Group::NonAtom(NonAtomGroup::MathOrd), name: 'u' });
    }
    None
}

/// One part of the bulk symbol table.
pub open spec fn table_part_14(mode: Mode, name: char) -> Option<Symbol> {
    if mode == Mode::Text && name == 'u' {
        Some(Symbol { mode: Mode::Text, font: Font::Main, group: Group::NonAtom(NonAtomGroup::TextOrd), name: 'u' })
    } else if mode == Mode::Math && name == 'v' {
        Some(Symbol { mode: Mode::Math, font: Font::Main, group: Group::NonAtom(NonAtomGroup::MathOrd), name: 'v' })
    } else if mode == Mode::Text && name == 'v' {
        Some(Symbol { mode: Mode::Text, font: Font::Main, group: Group::NonAtom(NonAtomGroup::TextOrd), name: 'v' })
    } else if mode == Mode::Math && name == 'w' {
        Some(Symbol { mode: Mode::Math, font: Font::Main, group: Group::NonAtom(NonAtomGroup::MathOrd), name: 'w' })
    } else if mode == Mode::Text && name == 'w' {
        Some(Symbol { mode: Mode::Text, font: Font::Main, group: Group::NonAtom(NonAtomGroup::TextOrd), name: 'w' })
    } else if mode == Mode::Math && name == 'x' {
        Some(Symbol { mode: Mode::Math, font: Font::Main, group: Group::NonAtom(NonAtomGroup::MathOrd), name: 'x' })
    } else if mode == Mode::Text && name == 'x' {
        Some(Symbol { mode: Mode::Text, font: Font::Main, group: Group::NonAtom(NonAtomGroup::TextOrd), name: 'x' })
    } else if mode == Mode::Math && name == 'y' {
        Some(Symbol { mode: Mode::Math, font: Font::Main, group: Group::NonAtom(NonAtomGroup::MathOrd), name: 'y' })
    } else if mode == Mode::Text && name == 'y' {
        Some(Symbol { mode: Mode::Text, font: Font::Main, group: Group::NonAtom(NonAtomGroup::TextOrd), name: 'y' })
    } else if mode == Mode::Math && name == 'z' {
        Some(Symbol { mode: Mode::Math, font: Font::Main, group: Group::NonAtom(NonAtomGroup::MathOrd), name: 'z' })
    } else if mode == Mode::Text && name == 'z' {
        Some(Symbol { mode: Mode::Text, font: Font::Main, group: Group::NonAtom(NonAtomGroup::TextOrd), name: 'z' })
    } else if mode == Mode::Math && name == 'Ð' {
        Some(Symbol { mode: Mode::Math, font: Font::Main, group: Group::NonAtom(NonAtomGroup::MathOrd), name: 'Ð' })
    } else if mode == Mode::Text && name == 'Ð' {
        Some(Symbol { mode: Mode::Text, font: Font::Main, group: Group::NonAtom(NonAtomGroup::TextOrd), name: 'Ð' })
    } else if mode == Mode::Math && name == 'Þ' {
        Some(Symbol { mode: Mode::Math, font: Font::Main, group: Group::NonAtom(NonAtomGroup::MathOrd), name: 'Þ' })
    } else if mode == Mode::Text && name == 'Þ' {
        Some(Symbol { mode: Mode::Text, font: Font::Main, group: Group::NonAtom(NonAtomGroup::TextOrd), name: 'Þ' })
    } else if mode == Mode::Math && name == 'þ' {
        Some(Symbol { mode: Mode::Math, font: Font::Main, group: Group::NonAtom(NonAtomGroup::MathOrd), name: 'þ' })
    } else if mode == Mode::Text && name == 'þ' {
        Some(Symbol { mode: Mode::Text, font: Font::Main, group: Group::NonAtom(NonAtomGroup::TextOrd), name: 'þ' })
    } else {
        None
    }
}

fn lookup_part_14(mode: Mode, name: char) -> (r: Option<Symbol>)
    ensures
        r == table_part_14(mode, name),
{
    if mode == Mode::Text && name == 'u' {
        return Some(Symbol { mode: Mode::Text, font: Font::Main, group: Group::NonAtom(NonAtomGroup::TextOrd), name: 'u' });
    }
    if mode == Mode::Math && name == 'v' {
        return Some(Symbol { mode: Mode::Math, font: Font::Main, group: Group::NonAtom(NonAtomGroup::MathOrd), name: 'v' });
    }
    if mode == Mode::Text && name == 'v' {
        return Some(Symbol { mode: Mode::Text, font: Font::Main, group: Group::NonAtom(NonAtomGroup::TextOrd), name: 'v' });
    }
    if mode == Mode::Math && name == 'w' {
        return Some(Symbol { mode: Mode::Math, font: Font::Main, group: Group::NonAtom(NonAtomGroup::MathOrd), name: 'w' });
    }
    if mode == Mode::Text && name == 'w' {
        return Some(Symbol { mode: Mode::Text, font: Font::Main, group: Group::NonAtom(NonAtomGroup::TextOrd), name: 'w' });
    }
    if mode == Mode::Math && name == 'x' {
        return Some(Symbol { mode: Mode::Math, font: Font::Main, group: Group::NonAtom(NonAtomGroup::MathOrd), name: 'x' });
    }
    if mode == Mode::Text && name == 'x' {
        return Some(Symbol { mode: Mode::Text, font: Font::Main, group: Group::NonAtom(NonAtomGroup::TextOrd), name: 'x' });
    }
    if mode == Mode::Math && name == 'y' {
        return Some(Symbol { mode: Mode::Math, font: Font::Main, group: Group::NonAtom(NonAtomGroup::MathOrd), name: 'y' });
    }
    if mode == Mode::Text && name == 'y' {
        return Some(Symbol { mode: Mode::Text, font: Font::Main, group: Group::NonAtom(NonAtomGroup::TextOrd), name: 'y' });
    }
    if mode == Mode::Math && name == 'z' {
        return Some(Symbol { mode: Mode::Math, font: Font::Main, group: Group::NonAtom(NonAtomGroup::MathOrd), name: 'z' });
    }
    if mode == Mode::Text && name == 'z' {
        return Some(Symbol { mode: Mode::Text, font: Font::Main, group: Group::NonAtom(NonAtomGroup::TextOrd), name: 'z' });
    }
    if mode == Mode::Math && name == 'Ð' {
        return Some(Symbol { mode: Mode::Math, font: Font::Main, group: Group::NonAtom(NonAtomGroup::MathOrd), name: 'Ð' });
    }
    if mode == Mode::Text && name == 'Ð' {
        return Some(Symbol { mode: Mode::Text, font: Font::Main, group: Group::NonAtom(NonAtomGroup::TextOrd), name: 'Ð' });
    }
    if mode == Mode::Math && name == 'Þ' {
        return Some(Symbol { mode: Mode::Math, font: Font::Main, group: Group::NonAtom(NonAtomGroup::MathOrd), name: 'Þ' });
    }
    if mode == Mode::Text && name == 'Þ' {
        return Some(Symbol { mode: Mode::Text, font: Font::Main, group: Group::NonAtom(NonAtomGroup::TextOrd), name: 'Þ' });
    }
    if mode == Mode::Math && name == 'þ' {
        return Some(Symbol { mode: Mode::Math, font: Font::Main, group: Group::NonAtom(NonAtomGroup::MathOrd), name: 'þ' });
    }
    if mode == Mode::Text && name == 'þ' {
        return Some(Symbol { mode: Mode::Text, font: Font::Main, group: Group::NonAtom(NonAtomGroup::TextOrd), name: 'þ' });
    }
    None
}

/// The full lookup: the math-text special case, then the bulk table parts
/// in order, then the ordinary-text fallback.
#[verifier::opaque]
pub open spec fn symbol_spec(mode: Mode, name: char) -> Symbol {
    if mode == Mode::Math && is_math_text_char(name) {
        Symbol { mode: Mode::Math, font: Font::Main, group: Group::NonAtom(NonAtomGroup::TextOrd), name }
    } else if table_part_0(mode, name) is Some {
        table_part_0(mode, name)->Some_0
    } else if table_part_1(mode, name) is Some {
        table_part_1(mode, name)->Some_0
    } else if table_part_2(mode, name) is Some {
        table_part_2(mode, name)->Some_0
    } else if table_part_3(mode, name) is Some {
        table_part_3(mode, name)->Some_0
    } else if table_part_4(mode, name) is Some {
        table_part_4(mode, name)->Some_0
    } else if table_part_5(mode, name) is Some {
        table_part_5(mode, name)->Some_0
    } else if table_part_6(mode, name) is Some {
        table_part_6(mode, name)->Some_0
    } else if table_part_7(mode, name) is Some {
        table_part_7(mode, name)->Some_0
    } else if table_part_8(mode, name) is Some {
        table_part_8(mode, name)->Some_0
    } else if table_part_9(mode, name) is Some {
        table_part_9(mode, name)->Some_0
    } else if table_part_10(mode, name) is Some {
        table_part_10(mode, name)->Some_0
    } else if table_part_11(mode, name) is Some {
        table_part_11(mode, name)->Some_0
    } else if table_part_12(mode, name) is Some {
        table_part_12(mode, name)->Some_0
    } else if table_part_13(mode, name) is Some {
        table_part_13(mode, name)->Some_0
    } else if table_part_14(mode, name) is Some {
        table_part_14(mode, name)->Some_0
    } else {
        Symbol { mode, font: Font::Main, group: Group::NonAtom(NonAtomGroup::TextOrd), name }
    }
}

/// What `create_node` produces for a descriptor: an atom, an ordinary math
/// or text symbol, or an operator token; the accent-token and spacing
/// categories have no node form and fail.
pub open spec fn create_node_spec(s: Symbol) -> Result<NodeV, ConvertError> {
    match s.group {
        Group::Atom(family) => Ok(NodeV::Atom { family, mode: s.mode, loc: None, text: seq![s.name] }),
        Group::NonAtom(g) => match g {
            NonAtomGroup::MathOrd => Ok(NodeV::MathOrd { mode: s.mode, loc: None, text: seq![s.name] }),
            NonAtomGroup::OpToken => Ok(NodeV::Op {
                mode: s.mode,
                loc: None,
                limits: true,
                always_handle_sup_sub: None,
                suppress_base_shift: None,
                parent_is_sup_sub: false,
                symbol: true,
                name: Some(seq![s.name]),
                body: None,
            }),
            NonAtomGroup::TextOrd => Ok(NodeV::TextOrd { mode: s.mode, loc: None, text: seq![s.name] }),
            NonAtomGroup::AccentToken => Err(ConvertError::UnsupportedSymbol(s.name)),
            NonAtomGroup::Spacing => Err(ConvertError::UnsupportedSymbol(s.name)),
        },
    }
}

impl Symbol {
    /// A descriptor from its parts.
    pub fn new(mode: Mode, font: Font, group: Group, name: char) -> (r: Symbol)
        ensures
            r == (Symbol { mode, font, group, name }),
    {
        Symbol { mode, font, group, name }
    }

    /// The descriptor of a character in a mode. Total: unknown characters
    /// fall back to an ordinary text symbol.
    pub fn get(mode: Mode, name: char) -> (r: Symbol)
        ensures
            r == symbol_spec(mode, name),
    {
        proof {
            reveal(symbol_spec);
        }
        if mode == Mode::Math && math_text_char(name) {
            return Symbol {
                mode: Mode::Math,
                font: Font::Main,
                group: Group::NonAtom(NonAtomGroup::TextOrd),
                name,
            };
        }

        if let Some(s) = lookup_part_0(mode, name) {
            return s;
        }
        if let Some(s) = lookup_part_1(mode, name) {
            return s;
        }
        if let Some(s) = lookup_part_2(mode, name) {
            return s;
        }
        if let Some(s) = lookup_part_3(mode, name) {
            return s;
        }
        if let Some(s) = lookup_part_4(mode, name) {
            return s;
        }
        if let Some(s) = lookup_part_5(mode, name) {
            return s;
        }
        if let Some(s) = lookup_part_6(mode, name) {
            return s;
        }
        if let Some(s) = lookup_part_7(mode, name) {
            return s;
        }
        if let Some(s) = lookup_part_8(mode, name) {
            return s;
        }
        if let Some(s) = lookup_part_9(mode, name) {
            return s;
        }
        if let Some(s) = lookup_part_10(mode, name) {
            return s;
        }
        if let Some(s) = lookup_part_11(mode, name) {
            return s;
        }
        if let Some(s) = lookup_part_12(mode, name) {
            return s;
        }
        if let Some(s) = lookup_part_13(mode, name) {
            return s;
        }
        if let Some(s) = lookup_part_14(mode, name) {
            return s;
        }
        Symbol { mode, font: Font::Main, group: Group::NonAtom(NonAtomGroup::TextOrd), name }
    }

    /// The destination node of this descriptor, or the fatal error for the
    /// descriptor categories that have no node form.
    pub fn create_node(self) -> (r: Result<Node, ConvertError>)
        ensures
            match r {
                Ok(n) => create_node_spec(self) == Ok::<NodeV, ConvertError>(node_view(n)),
                Err(e) => create_node_spec(self) == Err::<NodeV, ConvertError>(e),
            },
    {
        match self.group {
            Group::Atom(family) => {
                let n = Node::Atom(Atom {
                    family,
                    mode: self.mode,
                    loc: None,
                    text: char_string(self.name),
                });
                proof {
                    assert(node_view(n) == NodeV::Atom {
                        family,
                        mode: self.mode,
                        loc: None,
                        text: seq![self.name],
                    });
                }
                Ok(n)
            },
            Group::NonAtom(g) => match g {
                NonAtomGroup::MathOrd => Ok(Node::MathOrd(MathOrd {
                    mode: self.mode,
                    loc: None,
                    text: char_string(self.name),
                })),
                NonAtomGroup::OpToken => {
                    let n = Node::Op(Op {
                        mode: self.mode,
                        loc: None,
                        limits: true,
                        always_handle_sup_sub: None,
                        suppress_base_shift: None,
                        parent_is_sup_sub: false,
                        symbol: true,
                        name: Some(char_string(self.name)),
                        body: None,
                    });
                    proof {
                        assert(crate::katex::node::opt_node_list_view(None::<Vec<Node>>) is None);
                        assert(node_view(n) == NodeV::Op {
                            mode: self.mode,
                            loc: None,
                            limits: true,
                            always_handle_sup_sub: None,
                            suppress_base_shift: None,
                            parent_is_sup_sub: false,
                            symbol: true,
                            name: Some(seq![self.name]),
                            body: None,
                        });
                    }
                    Ok(n)
                },
                NonAtomGroup::TextOrd => Ok(Node::TextOrd(TextOrd {
                    mode: self.mode,
                    loc: None,
                    text: char_string(self.name),
                })),
                NonAtomGroup::AccentToken => Err(ConvertError::UnsupportedSymbol(self.name)),
                NonAtomGroup::Spacing => Err(ConvertError::UnsupportedSymbol(self.name)),
            },
        }
    }
}

} // verus!

