use eventsub::eventsub::subscriptions::Raid;
use eventsub::eventsub::subscriptions::SubscriptionType;
use eventsub::token::authorize_address;
use eventsub::token::parameter;
use eventsub::token::Scope;
use eventsub::token::ANALYTICS_READ_EXTENSIONS;
use eventsub::token::BITS_READ;
use eventsub::token::CHANNEL_READ_SUBSCRIPTIONS;
use eventsub::token::MODERATOR_READ_FOLLOWERS;
use eventsub::token::SCOPE_COUNT;
use eventsub::token::USER_READ_CHAT;
use eventsub::token::USER_WRITE_CHAT;

#[test]
fn the_table_of_scopes() {
    let table = Scope::scopes();
    assert_eq!(table.len(), SCOPE_COUNT);
    for (i, (scope, _)) in table.iter().enumerate() {
        assert_eq!(scope.bits, 1u128 << i);
    }
    assert_eq!(table[0], (Scope { bits: ANALYTICS_READ_EXTENSIONS }, "analytics%3Aread%3Aextensions"));
    assert_eq!(table[2], (Scope { bits: BITS_READ }, "bits%3Aread"));
    assert_eq!(table[73], (Scope { bits: USER_WRITE_CHAT }, "user%3Awrite%3Achat"));
}

#[test]
fn names_are_joined_in_the_order_of_the_table() {
    assert_eq!(Scope::none().get_scopes(), "");
    assert_eq!(Scope::from_bits(BITS_READ).get_scopes(), "bits%3Aread");
    let some = Scope::from_bits(USER_READ_CHAT).or(Scope::from_bits(BITS_READ));
    assert_eq!(some.get_scopes(), "bits%3Aread+user%3Aread%3Achat");
    let three = some.or(Scope::from_bits(USER_WRITE_CHAT));
    assert_eq!(three.get_scopes(), "bits%3Aread+user%3Aread%3Achat+user%3Awrite%3Achat");
    assert!(three.contains(some));
    assert!(!some.contains(three));
}

#[test]
fn the_scope_of_a_subscription() {
    assert_eq!(Scope::from(SubscriptionType::Follow).bits, MODERATOR_READ_FOLLOWERS);
    assert_eq!(Scope::from(SubscriptionType::ChatMessage).bits, USER_READ_CHAT);
    assert_eq!(Scope::from(SubscriptionType::SubscriptionGift).bits, CHANNEL_READ_SUBSCRIPTIONS);
    assert_eq!(Scope::from(SubscriptionType::Cheer).bits, BITS_READ);
    assert_eq!(Scope::from(SubscriptionType::Raid(Raid::To)), Scope::none());
    assert_eq!(Scope::from(SubscriptionType::StreamOnline), Scope::none());
}

#[test]
fn the_address_to_authorize_at() {
    let scopes = Scope::from_bits(BITS_READ | USER_READ_CHAT);
    assert_eq!(
        authorize_address("token", "abc", scopes),
        "https://id.twitch.tv/oauth2/authorize?response_type=token&client_id=abc&redirect_uri=http://localhost:8080&scope=bits%3Aread+user%3Aread%3Achat"
    );
}

#[test]
fn the_first_parameter_of_a_request() {
    let line = "GET /?access_token=0123abc&scope=bits%3Aread&token_type=bearer HTTP/1.1";
    assert_eq!(parameter(line, "GET /?access_token=").as_deref(), Some("0123abc"));
    assert_eq!(parameter(line, "GET /?code="), None);
    assert_eq!(parameter("GET /?code=xyz HTTP/1.1", "GET /?code="), None);
    assert_eq!(parameter("GET /?code=&b", "GET /?code=").as_deref(), Some(""));
    assert_eq!(parameter("GET", "GET /?code="), None);
    assert_eq!(parameter("GET /?code=\u{e9}t\u{e9}&x", "GET /?code=").as_deref(), Some("\u{e9}t\u{e9}"));
}
