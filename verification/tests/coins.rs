use gw2_dungeons::coins::Coins;

#[test]
fn gold() {
    for i in 0..1000 {
        assert_eq!(i, Coins(i * 1_00_00).gold());
        assert_eq!(i, Coins(i * 1_00_00 + 99).gold());
        assert_eq!(i, Coins(i * 1_00_00 + 99_00).gold());

        assert_eq!(-1 * i, Coins(-1 * (i * 1_00_00)).gold());
        assert_eq!(-1 * i, Coins(-1 * (i * 1_00_00 + 99)).gold());
        assert_eq!(-1 * i, Coins(-1 * (i * 1_00_00 + 99_00)).gold());
    }
}

#[test]
fn from_gold() {
    let coins = Coins::from_gold(999);
    assert_eq!(999_00_00, coins.0);
    assert_eq!(999, coins.gold());
}

#[test]
fn silver() {
    for i in 0..100 {
        assert_eq!(i as i8, Coins(1_00 * i).silver());
        assert_eq!(i as i8, Coins(1_00 * i + 99).silver());
        assert_eq!(i as i8, Coins(1_00 * i + 99_00_00).silver());

        assert_eq!(-1 * i as i8, Coins(-1 * (1_00 * i)).silver());
        assert_eq!(-1 * i as i8, Coins(-1 * (1_00 * i + 99)).silver());
        assert_eq!(-1 * i as i8, Coins(-1 * (1_00 * i + 99_00_00)).silver());
    }
}

#[test]
fn from_silver() {
    let coins = Coins::from_silver(99);
    assert_eq!(99_00, coins.0);
    assert_eq!(99, coins.silver());

    let coins = Coins::from_silver(1_00);
    assert_eq!(1_00_00, coins.0);
    assert_eq!(1, coins.gold());
    assert_eq!(0, coins.silver());
}

#[test]
fn copper() {
    for i in 0..100 {
        assert_eq!(i as i8, Coins(i).copper());
        assert_eq!(i as i8, Coins(99_00 + i).copper());
        assert_eq!(i as i8, Coins(99_00_00 + i).copper());

        assert_eq!(-1 * i as i8, Coins(-1 * i).copper());
        assert_eq!(-1 * i as i8, Coins(-1 * (99_00 + i)).copper());
        assert_eq!(-1 * i as i8, Coins(-1 * (99_00_00 + i)).copper());
    }
}

#[test]
fn from_copper() {
    let coins = Coins::from_copper(99);
    assert_eq!(99, coins.0);
    assert_eq!(99, coins.copper());

    let coins = Coins::from_copper(1_00);
    assert_eq!(1_00, coins.0);
    assert_eq!(1, coins.silver());
    assert_eq!(0, coins.copper());

    let coins = Coins::from_copper(1_00_00);
    assert_eq!(1_00_00, coins.0);
    assert_eq!(1, coins.gold());
    assert_eq!(0, coins.silver());
    assert_eq!(0, coins.copper());
}

/// Testing the display format with values that are at least a gold.
#[test]
fn display_gold() {
    assert_eq!("1g 0s 0c", Coins(1_00_00).display_string());
    assert_eq!("1g 5s 0c", Coins(1_05_00).display_string());
    assert_eq!("1g 0s 5c", Coins(1_00_05).display_string());
    assert_eq!("1g 2s 3c", Coins(1_02_03).display_string());
    assert_eq!("1g 23s 45c", Coins(1_23_45).display_string());
    assert_eq!("123456g 78s 90c", Coins(123456_78_90).display_string());
    assert_eq!("-1g 2s 3c", Coins(-1_02_03).display_string());
}

/// Testing the display format with values that are less
/// than a gold and at least a silver.
#[test]
fn display_silver() {
    assert_eq!("1s 0c", Coins(1_00).display_string());
    assert_eq!("1s 5c", Coins(1_05).display_string());
    assert_eq!("1s 50c", Coins(1_50).display_string());
    assert_eq!("10s 0c", Coins(10_00).display_string());
    assert_eq!("98s 76c", Coins(98_76).display_string());
    assert_eq!("-1s 2c", Coins(-1_02).display_string());
}

/// Testing the display format with values that are less than a silver.
#[test]
fn display_copper() {
    assert_eq!("0c", Coins(0).display_string());
    assert_eq!("1c", Coins(1).display_string());
    assert_eq!("10c", Coins(10).display_string());
    assert_eq!("99c", Coins(99).display_string());
    assert_eq!("-99c", Coins(-99).display_string());
}
