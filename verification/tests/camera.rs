use uranusbound::camera::{Camera, Direction, TILE_SIDE};

#[test]
fn new_camera_is_at_the_origin_with_no_size() {
    let camera = Camera::new();
    assert_eq!(camera.get_rect(), (0, 0, 0, 0));
    assert_eq!(camera.get_x_max(), 0);
    assert_eq!(camera.get_y_max(), 0);
}

#[test]
fn load_works_out_the_borders() {
    let camera = Camera::load(80, 90, 800, 600);
    assert_eq!(camera.get_x(), 80);
    assert_eq!(camera.get_y(), 90);
    assert_eq!(camera.get_width(), 800);
    assert_eq!(camera.get_height(), 600);
    assert_eq!(camera.get_x_max(), 880);
    assert_eq!(camera.get_y_max(), 690);
    assert_eq!(camera.get_rect(), (80, 90, 800, 600));
}

#[test]
fn setters_leave_the_borders_as_they_were() {
    let mut camera = Camera::load(80, 90, 800, 600);
    camera.pos_x(10);
    camera.pos_y(20);
    camera.width(30);
    camera.height(40);
    assert_eq!(camera.get_rect(), (10, 20, 30, 40));
    assert_eq!(camera.get_x_max(), 880);
    assert_eq!(camera.get_y_max(), 690);
    camera.x_max();
    assert_eq!(camera.get_x_max(), 40);
    assert_eq!(camera.get_y_max(), 690);
    camera.y_max();
    assert_eq!(camera.get_y_max(), 60);
}

#[test]
fn resize_sets_the_size_and_the_borders() {
    let mut camera = Camera::load(80, 90, 800, 600);
    camera.resize(1024, 768);
    assert_eq!(camera.get_rect(), (80, 90, 1024, 768));
    assert_eq!(camera.get_x_max(), 1104);
    assert_eq!(camera.get_y_max(), 858);
}

#[test]
fn to_max_moves_to_the_border() {
    let mut camera = Camera::load(80, 90, 800, 600);
    camera.x_to_max();
    assert_eq!(camera.get_x(), 880);
    assert_eq!(camera.get_y(), 90);
    camera.y_to_max();
    assert_eq!(camera.get_y(), 690);
    assert_eq!(camera.get_x_max(), 880);
}

#[test]
fn tile_side_is_sixteen() {
    assert_eq!(TILE_SIDE, 16);
}

#[test]
fn tile_buffer_auto_size_counts_whole_tiles() {
    assert_eq!(Camera::load(0, 0, 800, 600).tile_buffer_auto_size(), 50 * 37);
    assert_eq!(Camera::load(0, 0, 15, 600).tile_buffer_auto_size(), 0);
    assert_eq!(Camera::load(0, 0, 16, 16).tile_buffer_auto_size(), 1);
    assert_eq!(Camera::load(0, 0, -33, -17).tile_buffer_auto_size(), 2);
    assert_eq!(Camera::load(0, 0, -15, 1600).tile_buffer_auto_size(), 0);
    assert_eq!(Camera::new().tile_buffer_auto_size(), 0);
}

#[test]
fn scroll_left_and_up_stops_at_the_origin() {
    let mut camera = Camera::load(40, 17, 800, 600);
    camera.scroll(Direction::Left);
    assert_eq!(camera.get_x(), 24);
    camera.scroll(Direction::Left);
    assert_eq!(camera.get_x(), 8);
    camera.scroll(Direction::Left);
    assert_eq!(camera.get_x(), 0);
    camera.scroll(Direction::Left);
    assert_eq!(camera.get_x(), 0);
    camera.scroll(Direction::Up);
    assert_eq!(camera.get_y(), 1);
    camera.scroll(Direction::Up);
    assert_eq!(camera.get_y(), 0);
    assert_eq!(camera.get_rect(), (0, 0, 800, 600));
}

#[test]
fn scroll_left_from_one_tile_goes_to_the_origin() {
    let mut camera = Camera::load(16, 16, 800, 600);
    camera.scroll(Direction::Left);
    camera.scroll(Direction::Up);
    assert_eq!(camera.get_x(), 0);
    assert_eq!(camera.get_y(), 0);
}

#[test]
fn scroll_right_stops_at_the_border() {
    let mut camera = Camera::load(0, 0, 40, 40);
    camera.scroll(Direction::Right);
    assert_eq!(camera.get_x(), 16);
    camera.scroll(Direction::Right);
    assert_eq!(camera.get_x(), 32);
    camera.scroll(Direction::Right);
    assert_eq!(camera.get_x(), 40);
    camera.scroll(Direction::Right);
    assert_eq!(camera.get_x(), 40);
    assert_eq!(camera.get_y(), 0);
}

#[test]
fn scroll_down_stops_at_the_border() {
    let mut camera = Camera::load(0, 0, 32, 32);
    camera.scroll(Direction::Down);
    assert_eq!(camera.get_y(), 16);
    camera.scroll(Direction::Down);
    assert_eq!(camera.get_y(), 32);
    camera.scroll(Direction::Down);
    assert_eq!(camera.get_y(), 32);
    assert_eq!(camera.get_x(), 0);
}

#[test]
fn scroll_goes_by_the_border_as_it_was_last_worked_out() {
    let mut camera = Camera::load(0, 0, 32, 32);
    camera.width(320);
    camera.scroll(Direction::Right);
    camera.scroll(Direction::Right);
    camera.scroll(Direction::Right);
    assert_eq!(camera.get_x(), 32);
    camera.x_max();
    camera.scroll(Direction::Right);
    assert_eq!(camera.get_x(), 48);
}

#[test]
fn shows_the_rows_and_columns_between_the_place_and_the_size() {
    let camera = Camera::load(32, 48, 64, 80);
    assert!(!camera.shows_column(1));
    assert!(camera.shows_column(2));
    assert!(camera.shows_column(4));
    assert!(!camera.shows_column(5));
    assert!(!camera.shows_row(2));
    assert!(camera.shows_row(3));
    assert!(camera.shows_row(5));
    assert!(!camera.shows_row(6));
}

#[test]
fn shows_nothing_where_the_place_is_beyond_the_size() {
    let camera = Camera::load(80, 80, 64, 64);
    assert!(!camera.shows_column(0));
    assert!(!camera.shows_column(4));
    assert!(!camera.shows_column(5));
    assert!(!camera.shows_row(5));
}
