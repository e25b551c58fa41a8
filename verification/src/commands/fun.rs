//! The picture commands: cat, dog and duck.

use crate::embed::{Color, Embed, EmbedFieldView, EmbedView};
use crate::structs::{PetResponse, User, UserView};
use crate::utils::{send_error_msg, spec_error_msg};
use vstd::prelude::*;
use vstd::string::*;

verus! {

/// The animals that the bot has pictures of.
#[derive(Clone, Copy, Debug, PartialEq, Eq, Structural)]
pub enum Pet {
    Cat,
    Dog,
    Duck,
}

impl Pet {
    /// The address that answers with a picture of the animal.
    pub open spec fn spec_endpoint(self) -> Seq<char> {
        match self {
            Pet::Cat => "https://api.thecatapi.com/v1/images/search"@,
            Pet::Dog => "https://api.thedogapi.com/v1/images/search"@,
            Pet::Duck => "https://random-d.uk/api/v2/quack"@,
        }
    }

    /// The heading above a picture of the animal.
    pub open spec fn spec_heading(self) -> Seq<char> {
        match self {
            Pet::Cat => "Here's a cat! 😻"@,
            Pet::Dog => "Here's a dog! 🐶"@,
            Pet::Duck => "Here's a duck! 🦆"@,
        }
    }

    /// The name of the animal.
    pub open spec fn spec_name(self) -> Seq<char> {
        match self {
            Pet::Cat => "cat"@,
            Pet::Dog => "dog"@,
            Pet::Duck => "duck"@,
        }
    }

    /// What the user is told when no picture could be had.
    pub open spec fn spec_apology(self) -> Seq<char> {
        "Error handing web request to "@ + self.spec_name() + " API, try again later"@
    }

    /// The address that answers with a picture of the animal. The cat and
    /// dog services answer with a list of entries, the duck service with one
    /// entry.
    pub fn endpoint(self) -> (r: &'static str)
        ensures
            r@ == self.spec_endpoint(),
    {
        match self {
            Pet::Cat => "https://api.thecatapi.com/v1/images/search",
            Pet::Dog => "https://api.thedogapi.com/v1/images/search",
            Pet::Duck => "https://random-d.uk/api/v2/quack",
        }
    }

    /// The heading above a picture of the animal.
    pub fn heading(self) -> (r: &'static str)
        ensures
            r@ == self.spec_heading(),
    {
        match self {
            Pet::Cat => "Here's a cat! 😻",
            Pet::Dog => "Here's a dog! 🐶",
            Pet::Duck => "Here's a duck! 🦆",
        }
    }

    /// The name of the animal.
    pub fn name(self) -> (r: &'static str)
        ensures
            r@ == self.spec_name(),
    {
        match self {
            Pet::Cat => "cat",
            Pet::Dog => "dog",
            Pet::Duck => "duck",
        }
    }

    /// What the user is told when no picture could be had.
    pub fn apology(self) -> (r: String)
        ensures
            r@ == self.spec_apology(),
    {
        let mut text = String::from_str("Error handing web request to ");
        text.append(self.name());
        text.append(" API, try again later");
        text
    }
}

/// The message that shows a picture of the animal.
pub open spec fn spec_picture(pet: Pet, author: UserView, url: Seq<char>) -> EmbedView {
    EmbedView {
        author_name: pet.spec_heading(),
        author_icon_url: author.face,
        author_url: None,
        description: None,
        fields: Seq::<EmbedFieldView>::empty(),
        image: Some(url),
        color: Color::Blue,
        timestamp: false,
    }
}

/// The answer to a picture command: the picture at `url`, or, where there
/// is none, the request to try again later.
pub open spec fn spec_pet_reply(pet: Pet, author: UserView, url: Option<Seq<char>>) -> Result<
    EmbedView,
    EmbedView,
> {
    match url {
        Some(u) => Ok(spec_picture(pet, author, u)),
        None => Err(spec_error_msg(author, pet.spec_apology())),
    }
}

/// The address of the picture in a service's answer with a list of entries:
/// that of the first entry. A request that failed, an answer that could not
/// be read and an empty list give none.
pub open spec fn spec_first_url(response: Option<Vec<PetResponse>>) -> Option<Seq<char>> {
    match response {
        Some(entries) => if entries@.len() > 0 {
            Some(entries@[0].url@)
        } else {
            None
        },
        None => None,
    }
}

/// What a reply says.
pub open spec fn spec_reply_view(reply: Result<Embed, Embed>) -> Result<EmbedView, EmbedView> {
    match reply {
        Ok(e) => Ok(e@),
        Err(e) => Err(e@),
    }
}

/// Composes the answer to a picture command: `Ok` with the picture at `url`,
/// or `Err` with the request to try again later where there is no picture.
pub fn pet_reply(pet: Pet, author: &User, url: Option<&String>) -> (r: Result<Embed, Embed>)
    ensures
        r is Ok <==> url is Some,
        spec_reply_view(r) == spec_pet_reply(pet, author@, url.deep_view()),
{
    match url {
        Some(u) => {
            let embed = Embed {
                author_name: String::from_str(pet.heading()),
                author_icon_url: author.face.clone(),
                author_url: None,
                description: None,
                fields: Vec::new(),
                image: Some(u.clone()),
                color: Color::Blue,
                timestamp: false,
            };
            assert(embed@.fields =~= Seq::<EmbedFieldView>::empty());
            Ok(embed)
        },
        None => Err(send_error_msg(author, pet.apology().as_str())),
    }
}

fn first_url(response: &Option<Vec<PetResponse>>) -> (r: Option<&String>)
    ensures
        r.deep_view() == spec_first_url(response@),
{
    match response {
        Some(entries) => if entries.len() > 0 {
            Some(&entries[0].url)
        } else {
            None
        },
        None => None,
    }
}

/// Answers the cat command. `response` is what the cat service sent: its
/// list of entries, or `None` where the request failed or the answer could
/// not be read. The picture of the first entry is shown; without one the
/// user is asked to try again later.
pub fn cat(author: &User, response: &Option<Vec<PetResponse>>) -> (r: Result<Embed, Embed>)
    ensures
        r is Ok <==> (*response matches Some(entries) && entries.len() > 0),
        spec_reply_view(r) == spec_pet_reply(
            Pet::Cat,
            author@,
            spec_first_url(response@),
        ),
{
    pet_reply(Pet::Cat, author, first_url(response))
}

/// Answers the dog command, as `cat` answers the cat command.
pub fn dog(author: &User, response: &Option<Vec<PetResponse>>) -> (r: Result<Embed, Embed>)
    ensures
        r is Ok <==> (*response matches Some(entries) && entries.len() > 0),
        spec_reply_view(r) == spec_pet_reply(
            Pet::Dog,
            author@,
            spec_first_url(response@),
        ),
{
    pet_reply(Pet::Dog, author, first_url(response))
}

/// Answers the duck command. `response` is the one entry that the duck
/// service sent, or `None` where the request failed or the answer could not
/// be read.
pub fn duck(author: &User, response: &Option<PetResponse>) -> (r: Result<Embed, Embed>)
    ensures
        r is Ok <==> *response is Some,
        spec_reply_view(r) == spec_pet_reply(
            Pet::Duck,
            author@,
            match *response {
                Some(entry) => Some(entry.url@),
                None => None,
            },
        ),
{
    match response {
        Some(entry) => pet_reply(Pet::Duck, author, Some(&entry.url)),
        None => pet_reply(Pet::Duck, author, None),
    }
}

/// A picture command never fails for want of a picture: where the request
/// failed, where the answer could not be read and where the answer was an
/// empty list, the user is asked to try again later.
pub proof fn law_no_picture_asks_to_try_again_later(pet: Pet, author: UserView)
    ensures
        spec_first_url(None) is None,
        forall|entries: Vec<PetResponse>|
            entries@.len() == 0 ==> spec_first_url(Some(entries)) is None,
        spec_pet_reply(pet, author, None) == Err::<EmbedView, EmbedView>(
            spec_error_msg(
                author,
                "Error handing web request to "@ + pet.spec_name() + " API, try again later"@,
            ),
        ),
{
}

} // verus!
