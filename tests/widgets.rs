use text_widgets::button::{lighten_colors, lighten_component};
use text_widgets::{
    button_location, determine_render_opacity, label_location, ButtonTextRenderController, Color,
    Cursor, PaletteOpacity, Region, RenderOpacity, SimpleTextRenderController, TextAlignment,
    TextColors,
};

fn colors() -> TextColors {
    TextColors::new(
        Color::from_rgba(0, 0, 0, 255),
        Color::from_rgba(30, 60, 90, 255),
        Color::from_rgba(100, 100, 100, 200),
    )
}

#[test]
fn button_hover_palette_is_lighter() {
    assert_eq!(lighten_component(0), 85);
    assert_eq!(lighten_component(100), 151);
    assert_eq!(lighten_component(255), 255);
    let b = ButtonTextRenderController::simple("Go", button_location(Region::new(0, 0, 100, 20)), colors());
    let hover = b.get_hover_colors();
    assert_eq!(hover.fill_color, Color::from_rgba(85, 85, 85, 255));
    assert_eq!(hover.stroke_color, Color::from_rgba(105, 125, 145, 255));
    assert_eq!(hover.background_color, Color::from_rgba(151, 151, 151, 218));
    assert_eq!(hover, lighten_colors(colors()));
    assert_eq!(b.get_base_colors(), colors());
}

#[test]
fn button_hover_follows_the_drawn_text() {
    let mut b = ButtonTextRenderController::simple("Go", button_location(Region::new(0, 0, 100, 20)), colors());
    // text 40 wide is drawn in 30..70
    assert!(!b.mouse_move(Some((10, 10)), 40));
    assert!(!b.is_mouse_over());
    assert!(b.mouse_move(Some((35, 10)), 40));
    assert!(b.is_mouse_over());
    assert_eq!(b.get_cursor(), Some(Cursor::Pointer));
    assert!(!b.mouse_move(Some((69, 1)), 40));
    assert!(b.mouse_move(None, 40));
    assert_eq!(b.get_cursor(), None);
}

#[test]
fn button_render_plan() {
    let mut b = ButtonTextRenderController::simple("Go", button_location(Region::new(0, 0, 100, 20)), colors());
    let plan = b.render(40);
    assert_eq!(plan.text_region, Region::new(30, 0, 70, 20));
    assert_eq!(plan.passed_region, Some(Region::new(30, 0, 70, 20)));
    assert_eq!(plan.clear_region, None);
    assert_eq!(plan.colors, colors());
    assert_eq!(plan.cursor, None);
    b.mouse_move(Some((50, 10)), 40);
    let plan = b.render(40);
    assert_eq!(plan.colors, lighten_colors(colors()));
    assert_eq!(plan.cursor, Some(Cursor::Pointer));
}

#[test]
fn button_setters() {
    let mut b = ButtonTextRenderController::new("Go", button_location(Region::new(0, 0, 10, 10)), colors(), colors());
    b.set_background_color(Color::from_rgba(0, 0, 0, 0));
    assert_eq!(b.get_base_colors().background_color, Color::from_rgba(0, 0, 0, 0));
    assert_eq!(b.get_hover_colors().background_color, Color::from_rgba(85, 85, 85, 85));
    b.set_hover_fill_color(Color::from_rgba(1, 1, 1, 1));
    assert_eq!(b.get_hover_colors().fill_color, Color::from_rgba(1, 1, 1, 1));
    b.set_base_colors(colors());
    assert_eq!(b.get_base_colors(), colors());
    b.set_text("Stop");
    assert_eq!(b.get_text(), "Stop");
}

#[test]
fn label_render_plan() {
    let mut l = SimpleTextRenderController::new("Hi", label_location(Region::new(0, 0, 100, 20), TextAlignment::RightUp), colors());
    let plan = l.render(400);
    assert_eq!(plan.text_region, Region::new(0, 15, 100, 20));
    assert_eq!(plan.clear_region, None);
    assert_eq!(plan.cursor, None);
    assert_eq!(plan.passed_region, None);
    l.set_fill_color(Color::from_rgba(9, 9, 9, 9));
    assert_eq!(l.get_colors().fill_color, Color::from_rgba(9, 9, 9, 9));
    assert_eq!(l.render(400).colors, l.get_colors());
}

fn palette(fully_solid: bool, partial_transparency: bool) -> PaletteOpacity {
    PaletteOpacity { fully_solid, partial_transparency }
}

#[test]
fn render_opacity() {
    assert_eq!(determine_render_opacity(&vec![]), RenderOpacity::StaticSolidOrNothing);
    assert_eq!(
        determine_render_opacity(&vec![palette(true, false), palette(true, false)]),
        RenderOpacity::StaticSolidOrNothing
    );
    assert_eq!(
        determine_render_opacity(&vec![palette(true, false), palette(false, false)]),
        RenderOpacity::DynamicSolidOrNothing
    );
    assert_eq!(
        determine_render_opacity(&vec![palette(false, false), palette(false, true)]),
        RenderOpacity::Mixed
    );
}
