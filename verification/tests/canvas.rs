use lolshorts::video::auto_composer::BackgroundLayer;
use lolshorts::video::canvas::{
    add_watermark, background_filters, canvas_filter_graph, escaped_filter_path, join_steps,
    watermark_filter,
};

const OVERLAY: &str = "[0:v][bg]overlay=shortest=1";
const WATERMARK: &str = "drawtext=text='LoLShorts Free Tier':fontsize=36:fontcolor=white@0.5:x=w-tw-20:y=h-th-20:shadowx=2:shadowy=2";

#[test]
fn color_background_lays_a_full_frame() {
    let bg = BackgroundLayer::Color { value: "#FF0000".to_string() };
    assert_eq!(
        background_filters(&bg, false),
        vec!["color=c=#FF0000:s=1080x1920:d=1[bg]".to_string(), OVERLAY.to_string()]
    );
}

#[test]
fn gradient_background_takes_two_colours() {
    let bg = BackgroundLayer::Gradient { value: "red:blue".to_string() };
    assert_eq!(
        background_filters(&bg, false),
        vec![
            "color=c=red:s=1080x1920:d=1,geq=r='r(X,Y)':g='g(X,Y)':b='b(X,Y)',fade=type=in:duration=0:color=blue[bg]"
                .to_string(),
            OVERLAY.to_string()
        ]
    );
}

#[test]
fn malformed_gradient_falls_back_to_black() {
    for value in ["red", "a:b:c", ""] {
        let bg = BackgroundLayer::Gradient { value: value.to_string() };
        assert_eq!(
            background_filters(&bg, true),
            vec!["color=c=black:s=1080x1920:d=1[bg]".to_string(), OVERLAY.to_string()]
        );
    }
}

#[test]
fn image_background_is_escaped_and_blurred() {
    let bg = BackgroundLayer::Image { path: "C:\\bg.png".to_string() };
    assert_eq!(
        background_filters(&bg, true),
        vec![
            "movie=C\\:\\\\bg.png[bg_img];[bg_img]scale=1080:1920:force_original_aspect_ratio=increase,crop=1080:1920,boxblur=20[bg]"
                .to_string(),
            OVERLAY.to_string()
        ]
    );
    assert!(background_filters(&bg, false).is_empty());
}

#[test]
fn filter_paths_escape_backslashes_and_colons() {
    assert_eq!(escaped_filter_path("C:\\a\\b.png"), "C\\:\\\\a\\\\b.png");
    assert_eq!(escaped_filter_path("/tmp/x.png"), "/tmp/x.png");
}

#[test]
fn watermark_chains_to_the_last_step() {
    let mut steps = vec!["a".to_string(), "b".to_string()];
    add_watermark(&mut steps, false);
    assert_eq!(steps, vec!["a".to_string(), format!("b,{}", WATERMARK)]);

    let mut none: Vec<String> = Vec::new();
    add_watermark(&mut none, false);
    assert_eq!(none, vec![WATERMARK.to_string()]);

    let mut pro = vec!["a".to_string()];
    add_watermark(&mut pro, true);
    assert_eq!(pro, vec!["a".to_string()]);
    assert_eq!(watermark_filter(), WATERMARK);
}

#[test]
fn steps_are_joined_with_semicolons() {
    let steps = vec!["a".to_string(), "b".to_string(), "c".to_string()];
    assert_eq!(join_steps(&steps, ';'), "a;b;c");
    assert_eq!(join_steps(&Vec::new(), ';'), "");
}

#[test]
fn pro_canvas_without_steps_keeps_the_clip() {
    let bg = BackgroundLayer::Image { path: "/missing.png".to_string() };
    assert_eq!(canvas_filter_graph(&bg, false, Vec::new(), true), None);
}

#[test]
fn free_canvas_always_ends_with_the_watermark() {
    let bg = BackgroundLayer::Image { path: "/missing.png".to_string() };
    assert_eq!(canvas_filter_graph(&bg, false, Vec::new(), false), Some(WATERMARK.to_string()));

    let bg = BackgroundLayer::Color { value: "black".to_string() };
    let graph = canvas_filter_graph(&bg, false, vec!["drawtext=text='x'".to_string()], false).unwrap();
    assert_eq!(
        graph,
        format!(
            "color=c=black:s=1080x1920:d=1[bg];{};drawtext=text='x',{}",
            OVERLAY, WATERMARK
        )
    );
    assert!(graph.ends_with(WATERMARK));
}
