use rusty::commands::fun::{cat, dog, duck, pet_reply, Pet};
use rusty::embed::{Color, Embed};
use rusty::structs::{PetResponse, User};

fn author() -> User {
    User {
        id: 12,
        name: String::from("alice"),
        bot: false,
        face: String::from("https://cdn.example/avatars/12.png"),
    }
}

fn picture(heading: &str, url: &str) -> Embed {
    Embed {
        author_name: String::from(heading),
        author_icon_url: String::from("https://cdn.example/avatars/12.png"),
        author_url: None,
        description: None,
        fields: vec![],
        image: Some(String::from(url)),
        color: Color::Blue,
        timestamp: false,
    }
}

fn apology(text: &str) -> Embed {
    Embed {
        author_name: String::from("Error"),
        author_icon_url: String::from("https://cdn.example/avatars/12.png"),
        author_url: None,
        description: Some(String::from(text)),
        fields: vec![],
        image: None,
        color: Color::Red,
        timestamp: false,
    }
}

fn entry(url: &str) -> PetResponse {
    PetResponse { url: String::from(url) }
}

#[test]
fn endpoints_of_the_three_services() {
    assert_eq!(Pet::Cat.endpoint(), "https://api.thecatapi.com/v1/images/search");
    assert_eq!(Pet::Dog.endpoint(), "https://api.thedogapi.com/v1/images/search");
    assert_eq!(Pet::Duck.endpoint(), "https://random-d.uk/api/v2/quack");
}

#[test]
fn cat_shows_the_first_picture() {
    let response = Some(vec![entry("https://cats.example/1.jpg"), entry("https://cats.example/2.jpg")]);
    assert_eq!(
        cat(&author(), &response),
        Ok(picture("Here's a cat! 😻", "https://cats.example/1.jpg"))
    );
}

#[test]
fn dog_shows_the_first_picture() {
    let response = Some(vec![entry("https://dogs.example/1.jpg")]);
    assert_eq!(
        dog(&author(), &response),
        Ok(picture("Here's a dog! 🐶", "https://dogs.example/1.jpg"))
    );
}

#[test]
fn duck_shows_the_picture() {
    let response = Some(entry("https://ducks.example/1.jpg"));
    assert_eq!(
        duck(&author(), &response),
        Ok(picture("Here's a duck! 🦆", "https://ducks.example/1.jpg"))
    );
}

#[test]
fn a_failed_cat_request_asks_to_try_again_later() {
    assert_eq!(
        cat(&author(), &None),
        Err(apology("Error handing web request to cat API, try again later"))
    );
}

#[test]
fn a_failed_dog_request_asks_to_try_again_later() {
    assert_eq!(
        dog(&author(), &None),
        Err(apology("Error handing web request to dog API, try again later"))
    );
}

#[test]
fn a_failed_duck_request_asks_to_try_again_later() {
    assert_eq!(
        duck(&author(), &None),
        Err(apology("Error handing web request to duck API, try again later"))
    );
}

#[test]
fn an_empty_list_asks_to_try_again_later() {
    assert_eq!(
        cat(&author(), &Some(vec![])),
        Err(apology("Error handing web request to cat API, try again later"))
    );
    assert_eq!(
        dog(&author(), &Some(vec![])),
        Err(apology("Error handing web request to dog API, try again later"))
    );
}

#[test]
fn pet_reply_follows_the_address() {
    let url = String::from("https://ducks.example/9.gif");
    assert_eq!(
        pet_reply(Pet::Duck, &author(), Some(&url)),
        Ok(picture("Here's a duck! 🦆", "https://ducks.example/9.gif"))
    );
    assert_eq!(
        pet_reply(Pet::Cat, &author(), None),
        Err(apology("Error handing web request to cat API, try again later"))
    );
}

#[test]
fn names_of_the_animals() {
    assert_eq!(Pet::Cat.name(), "cat");
    assert_eq!(Pet::Dog.name(), "dog");
    assert_eq!(Pet::Duck.name(), "duck");
}

#[test]
fn headings_and_apologies_name_the_animal() {
    assert_eq!(Pet::Cat.heading(), "Here's a cat! 😻");
    assert_eq!(Pet::Dog.heading(), "Here's a dog! 🐶");
    assert_eq!(Pet::Duck.heading(), "Here's a duck! 🦆");
    assert_eq!(Pet::Cat.apology(), "Error handing web request to cat API, try again later");
    assert_eq!(Pet::Dog.apology(), "Error handing web request to dog API, try again later");
    assert_eq!(Pet::Duck.apology(), "Error handing web request to duck API, try again later");
}
