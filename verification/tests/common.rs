use packed_struct::bits::ones;

pub struct Rnd {
    seed: u64,
}

impl Rnd {
    pub fn new(seed: u64) -> Rnd {
        Rnd { seed }
    }

    pub fn rnd(&mut self) -> u64 {
        let r = self.seed;
        self.seed = (1103515245 * r + 12345) % (1 << 31);
        r
    }

    pub fn rnd_num(&mut self, max: u64) -> u64 {
        self.rnd() % max
    }
}

impl Iterator for Rnd {
    type Item = u64;

    fn next(&mut self) -> Option<u64> {
        Some(self.rnd())
    }
}

#[test]
fn test_rnd() {
    let rnd = Rnd::new(1);
    let numbers: Vec<_> = rnd.take(1000).collect();
    assert_eq!([1, 1103527590, 377401575], &numbers[0..3]);
}

#[test]
fn ones_are_below_the_next_power_of_two() {
    let mut rnd = Rnd::new(7);
    for _ in 0..100 {
        let n = rnd.rnd_num(32) as u32;
        assert_eq!(ones(n) as u64 + 1, 1u64 << n);
    }
}
