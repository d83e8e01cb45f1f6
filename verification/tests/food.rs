use snake::food::{
    cell_of_draws, first_free_cell, generate_food, occupies, random_cell, try_candidate,
};
use snake::grid::cell_on_grid;
use snake::{HEIGHT, WIDTH};

fn whole_grid_but(skip: Option<(u16, u16)>) -> Vec<(u16, u16)> {
    let mut cells = Vec::new();
    for y in 0..HEIGHT {
        for x in 0..WIDTH {
            if Some((x, y)) != skip {
                cells.push((x, y));
            }
        }
    }
    cells
}

#[test]
fn cell_on_grid_knows_the_bounds() {
    assert!(cell_on_grid((0, 0)));
    assert!(cell_on_grid((39, 19)));
    assert!(!cell_on_grid((40, 19)));
    assert!(!cell_on_grid((39, 20)));
    assert!(!cell_on_grid((65535, 65535)));
}

#[test]
fn draws_are_folded_onto_the_grid() {
    assert_eq!(cell_of_draws(0, 0), (0, 0));
    assert_eq!(cell_of_draws(39, 19), (39, 19));
    assert_eq!(cell_of_draws(40, 20), (0, 0));
    assert_eq!(cell_of_draws(41, 39), (1, 19));
    assert_eq!(cell_of_draws(65535, 65535), (15, 15));
    assert_eq!(cell_of_draws(12345, 54321), (25, 1));
}

#[test]
fn random_cells_lie_on_the_grid() {
    for _ in 0..2000 {
        let (x, y) = random_cell();
        assert!(x < WIDTH && y < HEIGHT);
    }
}

#[test]
fn random_cells_are_not_all_the_same() {
    let first = random_cell();
    let mut differs = false;
    for _ in 0..200 {
        if random_cell() != first {
            differs = true;
        }
    }
    assert!(differs);
}

#[test]
fn occupies_finds_cells_of_the_body() {
    let body = vec![(5, 5), (5, 6), (5, 7)];
    assert!(occupies(&body, (5, 5)));
    assert!(occupies(&body, (5, 6)));
    assert!(occupies(&body, (5, 7)));
    assert!(!occupies(&body, (6, 5)));
    assert!(!occupies(&body, (5, 8)));
    assert!(!occupies(&body, (7, 5)));
    assert!(!occupies(&Vec::new(), (0, 0)));
}

#[test]
fn candidate_on_a_free_cell_is_taken_as_it_is() {
    let body = vec![(5, 5), (5, 6), (5, 7)];
    assert_eq!(try_candidate(&body, 0, 0), Some((0, 0)));
    assert_eq!(try_candidate(&body, 6, 7), Some((6, 7)));
    assert_eq!(try_candidate(&body, 41, 39), Some((1, 19)));
    assert_eq!(try_candidate(&body, 65535, 65535), Some((15, 15)));
    assert_eq!(try_candidate(&Vec::new(), 5, 5), Some((5, 5)));
}

#[test]
fn candidate_on_the_snake_is_turned_down() {
    let body = vec![(5, 5), (5, 6), (5, 7)];
    assert_eq!(try_candidate(&body, 5, 5), None);
    assert_eq!(try_candidate(&body, 5, 7), None);
    assert_eq!(try_candidate(&body, 45, 26), None);
    assert_eq!(try_candidate(&body, 5 + 40 * 1000, 7 + 20 * 3000), None);
}

#[test]
fn candidate_is_compared_after_folding() {
    let body = vec![(45, 26)];
    assert_eq!(try_candidate(&body, 45, 26), Some((5, 6)));
    assert_eq!(try_candidate(&body, 5, 6), Some((5, 6)));
}

#[test]
fn first_free_cell_reads_row_by_row() {
    assert_eq!(first_free_cell(&Vec::new()), Some((0, 0)));
    assert_eq!(first_free_cell(&vec![(0, 0), (1, 0)]), Some((2, 0)));
    assert_eq!(first_free_cell(&vec![(1, 0), (0, 1)]), Some((0, 0)));
    let top_row: Vec<(u16, u16)> = (0..WIDTH).map(|x| (x, 0)).collect();
    assert_eq!(first_free_cell(&top_row), Some((0, 1)));
}

#[test]
fn first_free_cell_of_a_full_grid_is_none() {
    assert_eq!(first_free_cell(&whole_grid_but(None)), None);
    assert_eq!(first_free_cell(&whole_grid_but(Some((39, 19)))), Some((39, 19)));
    assert_eq!(first_free_cell(&whole_grid_but(Some((17, 8)))), Some((17, 8)));
}

#[test]
fn generated_food_avoids_the_body() {
    let body = vec![(5, 5), (5, 6), (5, 7)];
    for _ in 0..2000 {
        let food = generate_food(&body).unwrap();
        assert!(cell_on_grid(food));
        assert!(!body.contains(&food));
    }
}

#[test]
fn generated_food_finds_the_last_free_cell() {
    let body = whole_grid_but(Some((23, 11)));
    assert_eq!(generate_food(&body), Some((23, 11)));
}

#[test]
fn generated_food_on_a_full_grid_is_none() {
    assert_eq!(generate_food(&whole_grid_but(None)), None);
}

#[test]
fn generated_food_on_an_empty_body_is_any_cell() {
    let food = generate_food(&Vec::new()).unwrap();
    assert!(cell_on_grid(food));
}
