use afterglow::channel::Channel;
use afterglow::component::Entity;
use afterglow::fixtures::Data;
use afterglow::fixtures::Device;
use afterglow::fixtures::Msg;
use afterglow::fixtures::Msg2;
use afterglow::component::Render;
use afterglow::renderer::build_node;
use afterglow::renderer::Renderer;

#[test]
fn renderer_builds_node_from_state() {
    let on = Data { button: true };
    let off = Data { button: false };
    assert_eq!(Device::Pc.view(&on), Some(true));
    assert_eq!(Device::Mobile.view(&off), Some(false));
}

#[test]
fn build_node_placeholder_when_busy() {
    let state = Data { button: true };
    assert_eq!(build_node(&Device::Pc, Some(&state)), Some(true));
    assert_eq!(build_node::<Device>(&Device::Pc, None), None, "no snapshot: placeholder, never blocking");
}

#[test]
fn state_renders_its_own_node() {
    let d = Data { button: false };
    let n: Option<bool> = Render::<Msg, Msg2>::render(&d);
    assert_eq!(n, Some(false));
}

#[test]
fn entity_renders_current_state() {
    let e: Entity<Data, Msg, Msg2> = Entity::new(Data { button: true }, Channel::new());
    assert_eq!(e.render(&Device::Mobile), Some(true));
}
