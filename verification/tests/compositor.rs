use choo_choo::compositor::{paint, stable_order};
use choo_choo::engine::Engine;
use choo_choo::entity::Entity;
use choo_choo::grass::GrassBlade;
use choo_choo::texture::ImageSize;
use choo_choo::track::Track;

fn blade_at(x: i64, y: i64) -> GrassBlade {
    let mut blade = GrassBlade::default();
    blade.x = x;
    blade.y = y;
    blade
}

#[test]
fn equal_anchors_keep_their_order() {
    // A and B both at anchor 10, handed over as [A, B]
    let a = blade_at(1_000, 10_000);
    let b = blade_at(2_000, 10_000);
    let entities = vec![a, b];
    let order = paint(&entities);
    assert_eq!(order, vec![0, 1]);
    assert_eq!(entities[order[0]].x, 1_000);
    assert_eq!(entities[order[1]].x, 2_000);
}

#[test]
fn smaller_anchor_is_painted_first() {
    assert_eq!(stable_order(&vec![30, 10, 20]), vec![1, 2, 0]);
    assert_eq!(stable_order(&vec![3, 2, 1, 0]), vec![3, 2, 1, 0]);
    assert_eq!(stable_order(&vec![-5, 5, -10]), vec![2, 0, 1]);
}

#[test]
fn ascending_anchors_are_painted_as_they_stand() {
    assert_eq!(stable_order(&vec![1, 2, 2, 3, 3, 3, 9]), vec![0, 1, 2, 3, 4, 5, 6]);
}

#[test]
fn ties_are_broken_by_place() {
    assert_eq!(stable_order(&vec![7, 7, 7, 7]), vec![0, 1, 2, 3]);
    assert_eq!(stable_order(&vec![5, 1, 5, 1, 5]), vec![1, 3, 0, 2, 4]);
    assert_eq!(stable_order(&vec![2, 1, 2, 1, 0, 0]), vec![4, 5, 1, 3, 0, 2]);
}

#[test]
fn nothing_and_one_thing() {
    assert_eq!(stable_order(&Vec::new()), Vec::<usize>::new());
    assert_eq!(stable_order(&vec![42]), vec![0]);
    let none: Vec<GrassBlade> = Vec::new();
    assert!(paint(&none).is_empty());
}

#[test]
fn extremes_are_ordered() {
    assert_eq!(stable_order(&vec![i64::MAX, i64::MIN, 0]), vec![1, 2, 0]);
}

#[test]
fn order_agrees_with_a_stable_sort() {
    let mut state: u64 = 0x2545_f491_4f6c_dd1d;
    for n in [2usize, 3, 5, 8, 13, 64, 257, 1000] {
        let mut anchors: Vec<i64> = Vec::new();
        for _ in 0..n {
            state ^= state << 13;
            state ^= state >> 7;
            state ^= state << 17;
            anchors.push((state % 17) as i64 - 8);
        }
        let order = stable_order(&anchors);
        let mut expected: Vec<usize> = (0..n).collect();
        expected.sort_by_key(|&i| anchors[i]);
        assert_eq!(order, expected);
    }
}

#[test]
fn painted_anchors_do_not_depend_on_the_order_handed_over() {
    let one = vec![4i64, 1, 3, 1, 2];
    let other = vec![1i64, 2, 1, 3, 4];
    let painted_one: Vec<i64> = stable_order(&one).iter().map(|&i| one[i]).collect();
    let painted_other: Vec<i64> = stable_order(&other).iter().map(|&i| other[i]).collect();
    assert_eq!(painted_one, vec![1, 1, 2, 3, 4]);
    assert_eq!(painted_one, painted_other);
}

#[test]
fn mixed_entities_are_ordered_by_their_anchors() {
    let img = ImageSize { width: 64, height: 32 };
    let mut engine = Engine::new(img);
    engine.x = 150_000;
    engine.y = 50_000;
    let track = Track::new(10, ImageSize { width: 32, height: 8 });
    let entities = vec![
        Entity::Blade(blade_at(0, 70_000)),
        Entity::Engine(engine),
        Entity::Track(track),
        Entity::Blade(blade_at(0, 50_000)),
        Entity::Blade(blade_at(0, -1_000)),
    ];
    // anchors: 70, 50, 0, 50, -1
    assert_eq!(paint(&entities), vec![4, 2, 1, 3, 0]);
}
