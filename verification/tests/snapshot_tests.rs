use flexplore::codegen::bevy::emit_bevy_code;
use flexplore::codegen::iced::emit_iced;
use flexplore::config::{ColorPalette, ValueConfig};
use flexplore::fixtures::all_fixtures;
use flexplore::templates::holy_grail;

fn iced_for(name: &str) -> String {
    let fixtures = all_fixtures();
    let f = fixtures.iter().find(|f| f.name == name).expect("unknown fixture");
    emit_iced(&f.node, f.palette)
}

#[test]
fn iced_snapshot_deep_chain_3() {
    let expected = "fn view(&self) -> iced::Element<'_, Message> {
    row![
        row![
            row![
                container(text(\"leaf\").size(26).color(Color::from_rgba(0.05, 0.05, 0.1, 0.85)))
                    .width(Length::Fixed(50.0))
                    .height(Length::Fixed(50.0))
                    .padding(8.0)
                    .center(Length::Fill)
                    .style(|_| container::Style {
                        background: Some(Color::from_rgb(0.98, 0.71, 0.68).into()),
                        ..Default::default()
                    }),
            ]
            .wrap()
            .spacing(8.0)
            .align_y(Vertical::Top)
            .width(Length::Fill)
            .padding(12.0),
        ]
        .wrap()
        .spacing(8.0)
        .align_y(Vertical::Top)
        .width(Length::Fill)
        .padding(12.0),
    ]
    .wrap()
    .spacing(8.0)
    .align_y(Vertical::Top)
    .width(Length::Fill)
    .padding(12.0)
    .into()
}
";
    assert_eq!(iced_for("deep_chain_3"), expected);
}

#[test]
fn iced_snapshot_gaps_mixed() {
    let expected = "fn view(&self) -> iced::Element<'_, Message> {
    row![
        container(text(\"A\").size(26).color(Color::from_rgba(0.05, 0.05, 0.1, 0.85)))
            .width(Length::Fixed(150.0))
            .height(Length::Fixed(60.0))
            .padding(8.0)
            .center(Length::Fill)
            .style(|_| container::Style {
                background: Some(Color::from_rgb(0.98, 0.71, 0.68).into()),
                ..Default::default()
            }),
        container(text(\"B\").size(26).color(Color::from_rgba(0.05, 0.05, 0.1, 0.85)))
            .width(Length::Fixed(150.0))
            .height(Length::Fixed(60.0))
            .padding(8.0)
            .center(Length::Fill)
            .style(|_| container::Style {
                background: Some(Color::from_rgb(0.70, 0.80, 0.89).into()),
                ..Default::default()
            }),
        container(text(\"C\").size(26).color(Color::from_rgba(0.05, 0.05, 0.1, 0.85)))
            .width(Length::Fixed(150.0))
            .height(Length::Fixed(60.0))
            .padding(8.0)
            .center(Length::Fill)
            .style(|_| container::Style {
                background: Some(Color::from_rgb(0.80, 0.92, 0.77).into()),
                ..Default::default()
            }),
        container(text(\"D\").size(26).color(Color::from_rgba(0.05, 0.05, 0.1, 0.85)))
            .width(Length::Fixed(150.0))
            .height(Length::Fixed(60.0))
            .padding(8.0)
            .center(Length::Fill)
            .style(|_| container::Style {
                background: Some(Color::from_rgb(0.87, 0.80, 0.89).into()),
                ..Default::default()
            }),
        container(text(\"E\").size(26).color(Color::from_rgba(0.05, 0.05, 0.1, 0.85)))
            .width(Length::Fixed(150.0))
            .height(Length::Fixed(60.0))
            .padding(8.0)
            .center(Length::Fill)
            .style(|_| container::Style {
                background: Some(Color::from_rgb(1.00, 0.85, 0.65).into()),
                ..Default::default()
            }),
        container(text(\"F\").size(26).color(Color::from_rgba(0.05, 0.05, 0.1, 0.85)))
            .width(Length::Fixed(150.0))
            .height(Length::Fixed(60.0))
            .padding(8.0)
            .center(Length::Fill)
            .style(|_| container::Style {
                background: Some(Color::from_rgb(1.00, 1.00, 0.80).into()),
                ..Default::default()
            }),
    ]
    .wrap()
    .spacing(40.0)
    .align_y(Vertical::Top)
    .width(Length::Fill)
    .padding(12.0)
    .into()
}
";
    assert_eq!(iced_for("gaps_mixed"), expected);
}

#[test]
fn iced_snapshot_vw_vh_sizes() {
    let expected = "fn view(&self) -> iced::Element<'_, Message> {
    column![
        // NOTE: flex-wrap: Wrap — Iced Column does not support wrapping
        container(text(\"50vw x 20vh\").size(26).color(Color::from_rgba(0.05, 0.05, 0.1, 0.85)))
            .width(Length::Fixed(50.0) /* 50vw — no viewport units in Iced */)
            .height(Length::Fixed(20.0) /* 20vh — no viewport units in Iced */)
            .padding(8.0)
            .center(Length::Fill)
            .style(|_| container::Style {
                background: Some(Color::from_rgb(0.98, 0.71, 0.68).into()),
                ..Default::default()
            }),
        container(text(\"75vw x 30vh\").size(26).color(Color::from_rgba(0.05, 0.05, 0.1, 0.85)))
            .width(Length::Fixed(75.0) /* 75vw — no viewport units in Iced */)
            .height(Length::Fixed(30.0) /* 30vh — no viewport units in Iced */)
            .padding(8.0)
            .center(Length::Fill)
            .style(|_| container::Style {
                background: Some(Color::from_rgb(0.70, 0.80, 0.89).into()),
                ..Default::default()
            }),
    ]
    .spacing(8.0)
    .align_x(Horizontal::Left)
    .width(Length::Fill)
    .padding(12.0)
    .into()
}
";
    assert_eq!(iced_for("vw_vh_sizes"), expected);
}

#[test]
fn bevy_snapshot_holy_grail_with_narrow_sidebars() {
    let mut root = holy_grail();
    root.children[1].children[0].width = ValueConfig::Px(1200);
    root.children[1].children[2].width = ValueConfig::Px(1200);
    let expected = "fn spawn_ui(commands: &mut Commands) {
    // root
    commands.spawn((
        Node {
            flex_direction: FlexDirection::Column,
            justify_content: JustifyContent::FlexStart,
            align_items: AlignItems::Stretch,
            align_content: AlignContent::FlexStart,
            flex_grow: 1.0,
            width: Val::Percent(100.0),
            height: Val::Percent(100.0),
            min_height: Val::Px(0.0),
            ..default()
        },
        BackgroundColor(Color::srgba(0.11, 0.11, 0.17, 1.0)),
    )).with_children(|parent| {
        // header
        parent.spawn((
            Node {
                flex_wrap: FlexWrap::Wrap,
                justify_content: JustifyContent::Center,
                align_items: AlignItems::Center,
                align_content: AlignContent::FlexStart,
                row_gap: Val::Px(4.0),
                column_gap: Val::Px(4.0),
                flex_shrink: 0.0,
                height: Val::Px(60.0),
                padding: UiRect::all(Val::Px(8.0)),
                ..default()
            },
            BackgroundColor(Color::srgb(0.98, 0.71, 0.68)),
        )).with_children(|parent| {
            parent.spawn(Node {
                position_type: PositionType::Absolute,
                top: Val::Px(0.0),
                left: Val::Px(0.0),
                right: Val::Px(0.0),
                bottom: Val::Px(0.0),
                justify_content: JustifyContent::Center,
                align_items: AlignItems::Center,
                ..default()
            }).with_child((
                Text::new(\"header\"),
                TextFont { font_size: 26.0, ..default() },
                TextColor(Color::srgba(0.05, 0.05, 0.1, 0.85)),
            ));
        });
        // middle
        parent.spawn((
            Node {
                justify_content: JustifyContent::FlexStart,
                align_items: AlignItems::Stretch,
                align_content: AlignContent::FlexStart,
                flex_grow: 1.0,
                min_height: Val::Px(0.0),
                ..default()
            },
            BackgroundColor(Color::srgba(0.11, 0.11, 0.17, 1.0)),
        )).with_children(|parent| {
            // sidebar-left
            parent.spawn((
                Node {
                    flex_wrap: FlexWrap::Wrap,
                    justify_content: JustifyContent::Center,
                    align_items: AlignItems::Center,
                    align_content: AlignContent::FlexStart,
                    row_gap: Val::Px(4.0),
                    column_gap: Val::Px(4.0),
                    flex_shrink: 0.0,
                    width: Val::Px(120.0),
                    padding: UiRect::all(Val::Px(8.0)),
                    ..default()
                },
                BackgroundColor(Color::srgb(0.70, 0.80, 0.89)),
            )).with_children(|parent| {
                parent.spawn(Node {
                    position_type: PositionType::Absolute,
                    top: Val::Px(0.0),
                    left: Val::Px(0.0),
                    right: Val::Px(0.0),
                    bottom: Val::Px(0.0),
                    justify_content: JustifyContent::Center,
                    align_items: AlignItems::Center,
                    ..default()
                }).with_child((
                    Text::new(\"sidebar-left\"),
                    TextFont { font_size: 26.0, ..default() },
                    TextColor(Color::srgba(0.05, 0.05, 0.1, 0.85)),
                ));
            });
            // content
            parent.spawn((
                Node {
                    flex_wrap: FlexWrap::Wrap,
                    justify_content: JustifyContent::Center,
                    align_items: AlignItems::Center,
                    align_content: AlignContent::FlexStart,
                    row_gap: Val::Px(4.0),
                    column_gap: Val::Px(4.0),
                    flex_grow: 1.0,
                    padding: UiRect::all(Val::Px(8.0)),
                    ..default()
                },
                BackgroundColor(Color::srgb(0.80, 0.92, 0.77)),
            )).with_children(|parent| {
                parent.spawn(Node {
                    position_type: PositionType::Absolute,
                    top: Val::Px(0.0),
                    left: Val::Px(0.0),
                    right: Val::Px(0.0),
                    bottom: Val::Px(0.0),
                    justify_content: JustifyContent::Center,
                    align_items: AlignItems::Center,
                    ..default()
                }).with_child((
                    Text::new(\"content\"),
                    TextFont { font_size: 26.0, ..default() },
                    TextColor(Color::srgba(0.05, 0.05, 0.1, 0.85)),
                ));
            });
            // sidebar-right
            parent.spawn((
                Node {
                    flex_wrap: FlexWrap::Wrap,
                    justify_content: JustifyContent::Center,
                    align_items: AlignItems::Center,
                    align_content: AlignContent::FlexStart,
                    row_gap: Val::Px(4.0),
                    column_gap: Val::Px(4.0),
                    flex_shrink: 0.0,
                    width: Val::Px(120.0),
                    padding: UiRect::all(Val::Px(8.0)),
                    ..default()
                },
                BackgroundColor(Color::srgb(0.87, 0.80, 0.89)),
            )).with_children(|parent| {
                parent.spawn(Node {
                    position_type: PositionType::Absolute,
                    top: Val::Px(0.0),
                    left: Val::Px(0.0),
                    right: Val::Px(0.0),
                    bottom: Val::Px(0.0),
                    justify_content: JustifyContent::Center,
                    align_items: AlignItems::Center,
                    ..default()
                }).with_child((
                    Text::new(\"sidebar-right\"),
                    TextFont { font_size: 26.0, ..default() },
                    TextColor(Color::srgba(0.05, 0.05, 0.1, 0.85)),
                ));
            });
        });
        // footer
        parent.spawn((
            Node {
                flex_wrap: FlexWrap::Wrap,
                justify_content: JustifyContent::Center,
                align_items: AlignItems::Center,
                align_content: AlignContent::FlexStart,
                row_gap: Val::Px(4.0),
                column_gap: Val::Px(4.0),
                flex_shrink: 0.0,
                height: Val::Px(60.0),
                padding: UiRect::all(Val::Px(8.0)),
                ..default()
            },
            BackgroundColor(Color::srgb(1.00, 0.85, 0.65)),
        )).with_children(|parent| {
            parent.spawn(Node {
                position_type: PositionType::Absolute,
                top: Val::Px(0.0),
                left: Val::Px(0.0),
                right: Val::Px(0.0),
                bottom: Val::Px(0.0),
                justify_content: JustifyContent::Center,
                align_items: AlignItems::Center,
                ..default()
            }).with_child((
                Text::new(\"footer\"),
                TextFont { font_size: 26.0, ..default() },
                TextColor(Color::srgba(0.05, 0.05, 0.1, 0.85)),
            ));
        });
    });
}
";
    assert_eq!(emit_bevy_code(&root, ColorPalette::Pastel1), expected);
}
