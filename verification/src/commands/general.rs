//! The avatar command.

use crate::embed::{Color, Embed, EmbedFieldView, EmbedView};
use crate::structs::{User, UserView};
use vstd::prelude::*;
use vstd::string::*;

verus! {

/// The message that shows a user's avatar.
pub open spec fn spec_avatar(user: UserView) -> EmbedView {
    EmbedView {
        author_name: user.name + "'s avatar"@,
        author_icon_url: user.face,
        author_url: Some(user.face),
        description: None,
        fields: Seq::<EmbedFieldView>::empty(),
        image: Some(user.face),
        color: Color::Blue,
        timestamp: false,
    }
}

/// Answers the avatar command: shows the avatar of `user`, or that of
/// `author`, who ran the command, where no user was named.
pub fn avatar(author: &User, user: Option<&User>) -> (r: Embed)
    ensures
        r@ == spec_avatar(
            match user {
                Some(u) => u@,
                None => author@,
            },
        ),
{
    let user = match user {
        Some(u) => u,
        None => author,
    };
    let mut heading = user.name.clone();
    heading.append("'s avatar");
    let embed = Embed {
        author_name: heading,
        author_icon_url: user.face.clone(),
        author_url: Some(user.face.clone()),
        description: None,
        fields: Vec::new(),
        image: Some(user.face.clone()),
        color: Color::Blue,
        timestamp: false,
    };
    assert(embed@.fields =~= Seq::<EmbedFieldView>::empty());
    embed
}

} // verus!
