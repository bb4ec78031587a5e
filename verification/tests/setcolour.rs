use maxine::commands::setcolour::{
    colour_from_rgb, colour_roles_of, stale_colour_roles, topmost, ColourDecision, ColourPlan,
    RoleChoice,
};
use maxine::commands::{begin_setcolour, decide_colour, send_embed, setcolour};
use maxine::guild::{Guild, Member, Role};
use maxine::reply::{Embed, Reply};

fn role(id: u64, name: &str, position: u16, colour: u32) -> Role {
    Role { id, name: name.to_string(), position, colour }
}

fn guild() -> Guild {
    Guild {
        roles: vec![
            role(1, "everyone", 0, 0),
            role(2, "bot", 10, 0),
            role(3, "member", 4, 0x112233),
            role(4, "CLR-red", 5, 0xff0000),
            role(5, "CLR-teal", 6, 0x008080),
            role(6, "CLR-unused", 7, 0x010101),
            role(7, "admin", 20, 0x00ff00),
            role(8, "plain high", 30, 0),
        ],
        members: vec![
            Member { user: 100, roles: vec![1, 2] },
            Member { user: 200, roles: vec![1, 3, 4, 99] },
            Member { user: 300, roles: vec![1, 7] },
            Member { user: 400, roles: vec![1, 5, 8] },
        ],
    }
}

fn status(title: &str, description: &str, colour: u32) -> Reply {
    Reply::Embed(Embed {
        title: Some(title.to_string()),
        description: Some(description.to_string()),
        image: None,
        fields: vec![],
        footer: Some("Powered by Maxine".to_string()),
        colour: Some(colour),
    })
}

#[test]
fn colours_are_packed_as_red_green_blue() {
    assert_eq!(colour_from_rgb(0xff, 0x80, 0x01), 0xff8001);
    assert_eq!(colour_from_rgb(0, 0, 0), 0);
    assert_eq!(colour_from_rgb(255, 255, 255), 0xffffff);
}

#[test]
fn the_topmost_role_is_the_highest_that_counts() {
    let g = guild();
    assert_eq!(topmost(&g.roles, &vec![1, 2], false), 10);
    assert_eq!(topmost(&g.roles, &vec![1, 3, 4, 99], true), 5);
    assert_eq!(topmost(&g.roles, &vec![1, 5, 8], true), 6);
    assert_eq!(topmost(&g.roles, &vec![1, 5, 8], false), 30);
    assert_eq!(topmost(&g.roles, &vec![99], false), 0);
    assert_eq!(topmost(&g.roles, &vec![], true), 0);
}

#[test]
fn colour_roles_are_found_by_their_prefix() {
    let g = guild();
    assert_eq!(colour_roles_of(&g.roles, &vec![1, 3, 4, 99]), vec![4]);
    assert_eq!(colour_roles_of(&g.roles, &vec![5, 4, 6]), vec![5, 4, 6]);
    assert_eq!(stale_colour_roles(&g), vec![6]);
}

#[test]
fn a_new_colour_role_is_made_above_the_members_colours() {
    let decision = setcolour(&guild(), 200, 100, "orange", "<think>orange...</think>\n #ff8000 ");
    assert_eq!(
        decision,
        ColourDecision::Apply(ColourPlan {
            remove: vec![4],
            role: RoleChoice::Create {
                name: "CLR-orange".to_string(),
                colour: 0xff8000,
                position: 6,
            },
            delete: vec![6],
            reply: status("Colour Updated", "Your name colour has been updated!", 0xff8000),
        })
    );
}

#[test]
fn an_existing_colour_role_is_used_again() {
    let decision = setcolour(&guild(), 200, 100, "teal", "008080");
    match decision {
        ColourDecision::Apply(plan) => {
            assert_eq!(plan.role, RoleChoice::Existing(5));
            assert_eq!(plan.remove, vec![4]);
        }
        other => panic!("{:?}", other),
    }
}

#[test]
fn short_hex_colours_are_read() {
    match setcolour(&guild(), 200, 100, "yellow", "#fc0") {
        ColourDecision::Apply(plan) => assert_eq!(
            plan.role,
            RoleChoice::Create { name: "CLR-yellow".to_string(), colour: 0xffcc00, position: 6 }
        ),
        other => panic!("{:?}", other),
    }
}

#[test]
fn a_member_who_outranks_the_bot_is_refused() {
    let refused = status(
        "Colour Update Failed",
        "You have a role higher than me, so I can't assign your colour role.",
        0x0000ff,
    );
    assert_eq!(setcolour(&guild(), 300, 100, "blue", "#0000ff"), ColourDecision::Refused(refused));
}

#[test]
fn roles_without_colour_do_not_outrank() {
    match setcolour(&guild(), 400, 100, "blue", "#0000ff") {
        ColourDecision::Apply(plan) => {
            assert_eq!(plan.remove, vec![5]);
            assert_eq!(
                plan.role,
                RoleChoice::Create { name: "CLR-blue".to_string(), colour: 0xff, position: 7 }
            );
        }
        other => panic!("{:?}", other),
    }
}

#[test]
fn an_answer_that_is_no_colour_breaks_off() {
    assert_eq!(setcolour(&guild(), 200, 100, "cyan", "cyan"), ColourDecision::Faulted);
    assert_eq!(decide_colour(&guild(), 200, 100, "cyan", None), ColourDecision::Faulted);
}

#[test]
fn strangers_fail() {
    assert_eq!(
        setcolour(&guild(), 999, 100, "red", "#ff0000"),
        ColourDecision::Failed("Could not find user".to_string())
    );
    assert_eq!(
        setcolour(&guild(), 200, 999, "red", "#ff0000"),
        ColourDecision::Failed("Could not find bot".to_string())
    );
    assert_eq!(
        decide_colour(&guild(), 999, 100, "red", None),
        ColourDecision::Failed("Could not find user".to_string())
    );
}

#[test]
fn the_model_is_asked_for_members_only() {
    let g = guild();
    assert_eq!(
        begin_setcolour(None, 200, "red"),
        Err("Command must be used in a guild".to_string())
    );
    assert_eq!(begin_setcolour(Some(&g), 999, "red"), Err("Could not find user".to_string()));
    let request = begin_setcolour(Some(&g), 200, "red").unwrap();
    assert_eq!(request.model, "gemma3:4b");
    assert_eq!(request.preamble, None);
    assert_eq!(
        request.additions,
        vec!["You are a helpful assistant that converts color names to hex values. Respond with ONLY the hex value, nothing else.".to_string()]
    );
    assert_eq!(request.prompt, "Convert this color to a hex value: red");
}

#[test]
fn status_embeds_carry_the_colour() {
    assert_eq!(send_embed("t", "d", 7), status("t", "d", 7));
}
