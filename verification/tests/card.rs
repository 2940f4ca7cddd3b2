use memory_game::card::Card;
use memory_game::resource_location::ResourceLocation;

fn sample(name: &str) -> Card {
    Card::create(
        name.to_string(),
        ResourceLocation::new("memory_game", "cards/sample.json"),
        ResourceLocation::new("memory_game", "cards/sample.png"),
    )
}

#[test]
fn card_create_keeps_its_parts() {
    let card = sample("Fox");
    assert_eq!(card.get_name(), "Fox");
    assert_eq!(card.get_resource_location().to_string(), "memory_game:cards/sample.json");
    assert_eq!(card.get_texture_location().to_string(), "memory_game:cards/sample.png");
}

#[test]
fn empty_card_is_the_blank_card() {
    let card = Card::empty();
    assert_eq!(card.get_name(), "Blank Card");
    assert_eq!(card.get_resource_location().namespace, "");
    assert_eq!(card.get_resource_location().path, "");
    assert_eq!(card.get_texture_location().namespace, "memory_game");
    assert_eq!(card.get_texture_location().path, "memory_game:cards/card_base.png");
}

#[test]
fn cards_match_by_name_alone() {
    let a = sample("Fox");
    let b = Card::create(
        "Fox".to_string(),
        ResourceLocation::new("other", "elsewhere"),
        ResourceLocation::new("other", "texture"),
    );
    let c = sample("Owl");
    assert!(a.matches(&b));
    assert!(b.matches(&a));
    assert!(!a.matches(&c));
    assert!(!Card::empty().matches(&a));
    assert!(Card::empty().matches(&Card::empty()));
}

#[test]
fn card_clone_is_equal_in_every_part() {
    let a = sample("Fox");
    let b = a.clone();
    assert_eq!(a.get_name(), b.get_name());
    assert_eq!(a.get_resource_location().to_string(), b.get_resource_location().to_string());
    assert_eq!(a.get_texture_location().to_string(), b.get_texture_location().to_string());
}

#[test]
fn resource_location_string_form() {
    assert_eq!(ResourceLocation::new("memory_game", "sounds/flip.ogg").to_string(), "memory_game:sounds/flip.ogg");
    assert_eq!(ResourceLocation::empty().to_string(), ":");
    assert_eq!(ResourceLocation::new("a", "b:c").to_string(), "a:b:c");
}

#[test]
fn resource_location_same_compares_both_parts() {
    let a = ResourceLocation::new("a", "b");
    assert!(a.same(&ResourceLocation::new("a", "b")));
    assert!(!a.same(&ResourceLocation::new("a", "c")));
    assert!(!a.same(&ResourceLocation::new("c", "b")));
    assert!(a.same(&a.clone()));
}
