//! Two small helpers: emptying a vector, and making a node from a token
//! that has just been scanned.

use crate::end_reason::PlistIResultEndReason;
use crate::types::{text_of, PlistItemCustomDeserializeCompatible};
use vstd::prelude::*;

verus! {

/// Emptying a collection.
pub trait VectorHelper<U> {
    /// What the collection holds, in order.
    spec fn contents(&self) -> Seq<U>;

    /// Takes every element out of `self`, the last one first.
    fn remove_all(&mut self) -> (r: Vec<U>)
        ensures
            r@ == old(self).contents().reverse(),
            final(self).contents() == Seq::<U>::empty(),
    ;
}

impl<U> VectorHelper<U> for Vec<U> where U: Eq {
    open spec fn contents(&self) -> Seq<U> {
        self@
    }

    fn remove_all(&mut self) -> (r: Vec<U>) {
        let mut items: Vec<U> = Vec::new();
        while self.len() > 0
            invariant
                self@.len() <= old(self)@.len(),
                self@ == old(self)@.take(self@.len() as int),
                items@ == old(self)@.skip(self@.len() as int).reverse(),
            decreases self@.len(),
        {
            let ghost before = self@;
            let ghost taken = items@;
            let item = self.pop().unwrap();
            items.push(item);
            assert(self@ =~= old(self)@.take(self@.len() as int));
            assert(items@ =~= old(self)@.skip(self@.len() as int).reverse());
        }
        assert(old(self)@.skip(0) =~= old(self)@);
        assert(self@ =~= Seq::<U>::empty());
        items
    }
}

/// Turning a scanned token, with the text that is left behind it, into a
/// node.
pub trait XcodeParserDeserializer {
    /// The text of the token.
    spec fn token_text(&self) -> Seq<char>;

    /// The comment of the token.
    spec fn token_comment(&self) -> Option<Seq<char>>;

    /// The tag of the token.
    spec fn token_reason(&self) -> PlistIResultEndReason;

    /// The text that is left behind the token.
    spec fn left(&self) -> Seq<char>;

    /// The node made of the token's text and comment, with the text that is
    /// left. Only a token that ends a key is taken.
    fn get_plist_item<T: PlistItemCustomDeserializeCompatible>(&self) -> (r: (&[char], Box<T>))
        requires
            self.token_reason() is KeyEnd,
        ensures
            r.0@ == self.left(),
            r.1.holds(self.token_text(), self.token_comment()),
    ;
}

impl XcodeParserDeserializer for (&[char], (&str, Option<String>, PlistIResultEndReason)) {
    open spec fn token_text(&self) -> Seq<char> {
        self.1.0@
    }

    open spec fn token_comment(&self) -> Option<Seq<char>> {
        text_of(self.1.1)
    }

    open spec fn token_reason(&self) -> PlistIResultEndReason {
        self.1.2
    }

    open spec fn left(&self) -> Seq<char> {
        self.0@
    }

    fn get_plist_item<T: PlistItemCustomDeserializeCompatible>(&self) -> (r: (&[char], Box<T>)) {
        (self.0, Box::new(T::from_plist_result(&self.1)))
    }
}

} // verus!
