//! The predefined colors of the UI core library.

use vstd::prelude::*;

use crate::gfx::color::Color;

verus! {

impl Color {
    /// The predefined color AliceBlue.
    pub fn alice_blue() -> (color: Color)
        ensures
            color == Color::argb(0xFFF0F8FF),
    {
        Color::new_argb(0xFFF0F8FF)
    }

    /// The predefined color AntiqueWhite.
    pub fn antique_white() -> (color: Color)
        ensures
            color == Color::argb(0xFFFAEBD7),
    {
        Color::new_argb(0xFFFAEBD7)
    }

    /// The predefined color Aqua.
    pub fn aqua() -> (color: Color)
        ensures
            color == Color::argb(0xFF00FFFF),
    {
        Color::new_argb(0xFF00FFFF)
    }

    /// The predefined color Aquamarine.
    pub fn aquamarine() -> (color: Color)
        ensures
            color == Color::argb(0xFF7FFFD4),
    {
        Color::new_argb(0xFF7FFFD4)
    }

    /// The predefined color Azure.
    pub fn azure() -> (color: Color)
        ensures
            color == Color::argb(0xFFF0FFFF),
    {
        Color::new_argb(0xFFF0FFFF)
    }

    /// The predefined color Beige.
    pub fn beige() -> (color: Color)
        ensures
            color == Color::argb(0xFFF5F5DC),
    {
        Color::new_argb(0xFFF5F5DC)
    }

    /// The predefined color Bisque.
    pub fn bisque() -> (color: Color)
        ensures
            color == Color::argb(0xFFFFE4C4),
    {
        Color::new_argb(0xFFFFE4C4)
    }

    /// The predefined color Black.
    pub fn black() -> (color: Color)
        ensures
            color == Color::argb(0xFF000000),
    {
        Color::new_argb(0xFF000000)
    }

    /// The predefined color BlanchedAlmond.
    pub fn blanched_almond() -> (color: Color)
        ensures
            color == Color::argb(0xFFFFEBCD),
    {
        Color::new_argb(0xFFFFEBCD)
    }

    /// The predefined color Blue.
    pub fn blue() -> (color: Color)
        ensures
            color == Color::argb(0xFF0000FF),
    {
        Color::new_argb(0xFF0000FF)
    }

    /// The predefined color BlueViolet.
    pub fn blue_violet() -> (color: Color)
        ensures
            color == Color::argb(0xFF8A2BE2),
    {
        Color::new_argb(0xFF8A2BE2)
    }

    /// The predefined color Brown.
    pub fn brown() -> (color: Color)
        ensures
            color == Color::argb(0xFFA52A2A),
    {
        Color::new_argb(0xFFA52A2A)
    }

    /// The predefined color BurlyWood.
    pub fn burly_wood() -> (color: Color)
        ensures
            color == Color::argb(0xFFDEB887),
    {
        Color::new_argb(0xFFDEB887)
    }

    /// The predefined color CadetBlue.
    pub fn cadet_blue() -> (color: Color)
        ensures
            color == Color::argb(0xFF5F9EA0),
    {
        Color::new_argb(0xFF5F9EA0)
    }

    /// The predefined color Chartreuse.
    pub fn chartreuse() -> (color: Color)
        ensures
            color == Color::argb(0xFF7FFF00),
    {
        Color::new_argb(0xFF7FFF00)
    }

    /// The predefined color Chocolate.
    pub fn chocolate() -> (color: Color)
        ensures
            color == Color::argb(0xFFD2691E),
    {
        Color::new_argb(0xFFD2691E)
    }

    /// The predefined color Coral.
    pub fn coral() -> (color: Color)
        ensures
            color == Color::argb(0xFFFF7F50),
    {
        Color::new_argb(0xFFFF7F50)
    }

    /// The predefined color CornflowerBlue.
    pub fn cornflower_blue() -> (color: Color)
        ensures
            color == Color::argb(0xFF6495ED),
    {
        Color::new_argb(0xFF6495ED)
    }

    /// The predefined color Cornsilk.
    pub fn cornsilk() -> (color: Color)
        ensures
            color == Color::argb(0xFFFFF8DC),
    {
        Color::new_argb(0xFFFFF8DC)
    }

    /// The predefined color Crimson.
    pub fn crimson() -> (color: Color)
        ensures
            color == Color::argb(0xFFDC143C),
    {
        Color::new_argb(0xFFDC143C)
    }

    /// The predefined color Cyan.
    pub fn cyan() -> (color: Color)
        ensures
            color == Color::argb(0xFF00FFFF),
    {
        Color::new_argb(0xFF00FFFF)
    }

    /// The predefined color DarkBlue.
    pub fn dark_blue() -> (color: Color)
        ensures
            color == Color::argb(0xFF00008B),
    {
        Color::new_argb(0xFF00008B)
    }

    /// The predefined color DarkCyan.
    pub fn dark_cyan() -> (color: Color)
        ensures
            color == Color::argb(0xFF008B8B),
    {
        Color::new_argb(0xFF008B8B)
    }

    /// The predefined color DarkGoldenrod.
    pub fn dark_goldenrod() -> (color: Color)
        ensures
            color == Color::argb(0xFFB8860B),
    {
        Color::new_argb(0xFFB8860B)
    }

    /// The predefined color DarkGray.
    pub fn dark_gray() -> (color: Color)
        ensures
            color == Color::argb(0xFFA9A9A9),
    {
        Color::new_argb(0xFFA9A9A9)
    }

    /// The predefined color DarkGreen.
    pub fn dark_green() -> (color: Color)
        ensures
            color == Color::argb(0xFF006400),
    {
        Color::new_argb(0xFF006400)
    }

    /// The predefined color DarkKhaki.
    pub fn dark_khaki() -> (color: Color)
        ensures
            color == Color::argb(0xFFBDB76B),
    {
        Color::new_argb(0xFFBDB76B)
    }

    /// The predefined color DarkMagenta.
    pub fn dark_magenta() -> (color: Color)
        ensures
            color == Color::argb(0xFF8B008B),
    {
        Color::new_argb(0xFF8B008B)
    }

    /// The predefined color dark_olive_green.
    pub fn dark_olive_green() -> (color: Color)
        ensures
            color == Color::argb(0xFF556B2F),
    {
        Color::new_argb(0xFF556B2F)
    }

    /// The predefined color DarkOrange.
    pub fn dark_orange() -> (color: Color)
        ensures
            color == Color::argb(0xFFFF8C00),
    {
        Color::new_argb(0xFFFF8C00)
    }

    /// The predefined color DarkOrchid.
    pub fn dark_orchid() -> (color: Color)
        ensures
            color == Color::argb(0xFF9932CC),
    {
        Color::new_argb(0xFF9932CC)
    }

    /// The predefined color DarkRed.
    pub fn dark_red() -> (color: Color)
        ensures
            color == Color::argb(0xFF8B0000),
    {
        Color::new_argb(0xFF8B0000)
    }

    /// The predefined color DarkSalmon.
    pub fn dark_salmon() -> (color: Color)
        ensures
            color == Color::argb(0xFFE9967A),
    {
        Color::new_argb(0xFFE9967A)
    }

    /// The predefined color dark_sea_green.
    pub fn dark_sea_green() -> (color: Color)
        ensures
            color == Color::argb(0xFF8FBC8F),
    {
        Color::new_argb(0xFF8FBC8F)
    }

    /// The predefined color dark_slate_blue.
    pub fn dark_slate_blue() -> (color: Color)
        ensures
            color == Color::argb(0xFF483D8B),
    {
        Color::new_argb(0xFF483D8B)
    }

    /// The predefined color dark_slate_gray.
    pub fn dark_slate_gray() -> (color: Color)
        ensures
            color == Color::argb(0xFF2F4F4F),
    {
        Color::new_argb(0xFF2F4F4F)
    }

    /// The predefined color DarkTurquoise.
    pub fn dark_turquoise() -> (color: Color)
        ensures
            color == Color::argb(0xFF00CED1),
    {
        Color::new_argb(0xFF00CED1)
    }

    /// The predefined color DarkViolet.
    pub fn dark_violet() -> (color: Color)
        ensures
            color == Color::argb(0xFF9400D3),
    {
        Color::new_argb(0xFF9400D3)
    }

    /// The predefined color DeepPink.
    pub fn deep_pink() -> (color: Color)
        ensures
            color == Color::argb(0xFFFF1493),
    {
        Color::new_argb(0xFFFF1493)
    }

    /// The predefined color deep_sky_blue.
    pub fn deep_sky_blue() -> (color: Color)
        ensures
            color == Color::argb(0xFF00BFFF),
    {
        Color::new_argb(0xFF00BFFF)
    }

    /// The predefined color DimGray.
    pub fn dim_gray() -> (color: Color)
        ensures
            color == Color::argb(0xFF696969),
    {
        Color::new_argb(0xFF696969)
    }

    /// The predefined color DodgerBlue.
    pub fn dodger_blue() -> (color: Color)
        ensures
            color == Color::argb(0xFF1E90FF),
    {
        Color::new_argb(0xFF1E90FF)
    }

    /// The predefined color Firebrick.
    pub fn firebrick() -> (color: Color)
        ensures
            color == Color::argb(0xFFB22222),
    {
        Color::new_argb(0xFFB22222)
    }

    /// The predefined color FloralWhite.
    pub fn floral_white() -> (color: Color)
        ensures
            color == Color::argb(0xFFFFFAF0),
    {
        Color::new_argb(0xFFFFFAF0)
    }

    /// The predefined color ForestGreen.
    pub fn forest_green() -> (color: Color)
        ensures
            color == Color::argb(0xFF228B22),
    {
        Color::new_argb(0xFF228B22)
    }

    /// The predefined color Fuchsia.
    pub fn fuchsia() -> (color: Color)
        ensures
            color == Color::argb(0xFFFF00FF),
    {
        Color::new_argb(0xFFFF00FF)
    }

    /// The predefined color Gainsboro.
    pub fn gainsboro() -> (color: Color)
        ensures
            color == Color::argb(0xFFDCDCDC),
    {
        Color::new_argb(0xFFDCDCDC)
    }

    /// The predefined color GhostWhite.
    pub fn ghost_white() -> (color: Color)
        ensures
            color == Color::argb(0xFFF8F8FF),
    {
        Color::new_argb(0xFFF8F8FF)
    }

    /// The predefined color Gold.
    pub fn gold() -> (color: Color)
        ensures
            color == Color::argb(0xFFFFD700),
    {
        Color::new_argb(0xFFFFD700)
    }

    /// The predefined color Goldenrod.
    pub fn goldenrod() -> (color: Color)
        ensures
            color == Color::argb(0xFFDAA520),
    {
        Color::new_argb(0xFFDAA520)
    }

    /// The predefined color Gray.
    pub fn gray() -> (color: Color)
        ensures
            color == Color::argb(0xFF808080),
    {
        Color::new_argb(0xFF808080)
    }

    /// The predefined color Green.
    pub fn green() -> (color: Color)
        ensures
            color == Color::argb(0xFF008000),
    {
        Color::new_argb(0xFF008000)
    }

    /// The predefined color GreenYellow.
    pub fn green_yellow() -> (color: Color)
        ensures
            color == Color::argb(0xFFADFF2F),
    {
        Color::new_argb(0xFFADFF2F)
    }

    /// The predefined color Honeydew.
    pub fn honeydew() -> (color: Color)
        ensures
            color == Color::argb(0xFFF0FFF0),
    {
        Color::new_argb(0xFFF0FFF0)
    }

    /// The predefined color HotPink.
    pub fn hot_pink() -> (color: Color)
        ensures
            color == Color::argb(0xFFFF69B4),
    {
        Color::new_argb(0xFFFF69B4)
    }

    /// The predefined color IndianRed.
    pub fn indian_red() -> (color: Color)
        ensures
            color == Color::argb(0xFFCD5C5C),
    {
        Color::new_argb(0xFFCD5C5C)
    }

    /// The predefined color Indigo.
    pub fn indigo() -> (color: Color)
        ensures
            color == Color::argb(0xFF4B0082),
    {
        Color::new_argb(0xFF4B0082)
    }

    /// The predefined color Ivory.
    pub fn ivory() -> (color: Color)
        ensures
            color == Color::argb(0xFFFFFFF0),
    {
        Color::new_argb(0xFFFFFFF0)
    }

    /// The predefined color Khaki.
    pub fn khaki() -> (color: Color)
        ensures
            color == Color::argb(0xFFF0E68C),
    {
        Color::new_argb(0xFFF0E68C)
    }

    /// The predefined color Lavender.
    pub fn lavender() -> (color: Color)
        ensures
            color == Color::argb(0xFFE6E6FA),
    {
        Color::new_argb(0xFFE6E6FA)
    }

    /// The predefined color LavenderBlush.
    pub fn lavender_blush() -> (color: Color)
        ensures
            color == Color::argb(0xFFFFF0F5),
    {
        Color::new_argb(0xFFFFF0F5)
    }

    /// The predefined color LawnGreen.
    pub fn lawn_green() -> (color: Color)
        ensures
            color == Color::argb(0xFF7CFC00),
    {
        Color::new_argb(0xFF7CFC00)
    }

    /// The predefined color LemonChiffon.
    pub fn lemon_chiffon() -> (color: Color)
        ensures
            color == Color::argb(0xFFFFFACD),
    {
        Color::new_argb(0xFFFFFACD)
    }

    /// The predefined color LightBlue.
    pub fn light_blue() -> (color: Color)
        ensures
            color == Color::argb(0xFFADD8E6),
    {
        Color::new_argb(0xFFADD8E6)
    }

    /// The predefined color LightCoral.
    pub fn light_coral() -> (color: Color)
        ensures
            color == Color::argb(0xFFF08080),
    {
        Color::new_argb(0xFFF08080)
    }

    /// The predefined color LightCyan.
    pub fn light_cyan() -> (color: Color)
        ensures
            color == Color::argb(0xFFE0FFFF),
    {
        Color::new_argb(0xFFE0FFFF)
    }

    /// The predefined color LightGoldenrodYellow.
    pub fn light_goldenrod_yellow() -> (color: Color)
        ensures
            color == Color::argb(0xFFFAFAD2),
    {
        Color::new_argb(0xFFFAFAD2)
    }

    /// The predefined color LightGray.
    pub fn light_gray() -> (color: Color)
        ensures
            color == Color::argb(0xFFD3D3D3),
    {
        Color::new_argb(0xFFD3D3D3)
    }

    /// The predefined color LightGreen.
    pub fn light_green() -> (color: Color)
        ensures
            color == Color::argb(0xFF90EE90),
    {
        Color::new_argb(0xFF90EE90)
    }

    /// The predefined color LightPink.
    pub fn light_pink() -> (color: Color)
        ensures
            color == Color::argb(0xFFFFB6C1),
    {
        Color::new_argb(0xFFFFB6C1)
    }

    /// The predefined color LightSalmon.
    pub fn light_salmon() -> (color: Color)
        ensures
            color == Color::argb(0xFFFFA07A),
    {
        Color::new_argb(0xFFFFA07A)
    }

    /// The predefined color light_sea_green.
    pub fn light_sea_green() -> (color: Color)
        ensures
            color == Color::argb(0xFF20B2AA),
    {
        Color::new_argb(0xFF20B2AA)
    }

    /// The predefined color light_sky_blue.
    pub fn light_sky_blue() -> (color: Color)
        ensures
            color == Color::argb(0xFF87CEFA),
    {
        Color::new_argb(0xFF87CEFA)
    }

    /// The predefined color light_slate_gray.
    pub fn light_slate_gray() -> (color: Color)
        ensures
            color == Color::argb(0xFF778899),
    {
        Color::new_argb(0xFF778899)
    }

    /// The predefined color light_steel_blue.
    pub fn light_steel_blue() -> (color: Color)
        ensures
            color == Color::argb(0xFFB0C4DE),
    {
        Color::new_argb(0xFFB0C4DE)
    }

    /// The predefined color LightYellow.
    pub fn light_yellow() -> (color: Color)
        ensures
            color == Color::argb(0xFFFFFFE0),
    {
        Color::new_argb(0xFFFFFFE0)
    }

    /// The predefined color Lime.
    pub fn lime() -> (color: Color)
        ensures
            color == Color::argb(0xFF00FF00),
    {
        Color::new_argb(0xFF00FF00)
    }

    /// The predefined color LimeGreen.
    pub fn lime_green() -> (color: Color)
        ensures
            color == Color::argb(0xFF32CD32),
    {
        Color::new_argb(0xFF32CD32)
    }

    /// The predefined color Linen.
    pub fn linen() -> (color: Color)
        ensures
            color == Color::argb(0xFFFAF0E6),
    {
        Color::new_argb(0xFFFAF0E6)
    }

    /// The predefined color Magenta.
    pub fn magenta() -> (color: Color)
        ensures
            color == Color::argb(0xFFFF00FF),
    {
        Color::new_argb(0xFFFF00FF)
    }

    /// The predefined color Maroon.
    pub fn maroon() -> (color: Color)
        ensures
            color == Color::argb(0xFF800000),
    {
        Color::new_argb(0xFF800000)
    }

    /// The predefined color MediumAquamarine.
    pub fn medium_aquamarine() -> (color: Color)
        ensures
            color == Color::argb(0xFF66CDAA),
    {
        Color::new_argb(0xFF66CDAA)
    }

    /// The predefined color MediumBlue.
    pub fn medium_blue() -> (color: Color)
        ensures
            color == Color::argb(0xFF0000CD),
    {
        Color::new_argb(0xFF0000CD)
    }

    /// The predefined color MediumOrchid.
    pub fn medium_orchid() -> (color: Color)
        ensures
            color == Color::argb(0xFFBA55D3),
    {
        Color::new_argb(0xFFBA55D3)
    }

    /// The predefined color MediumPurple.
    pub fn medium_purple() -> (color: Color)
        ensures
            color == Color::argb(0xFF9370DB),
    {
        Color::new_argb(0xFF9370DB)
    }

    /// The predefined color medium_sea_green.
    pub fn medium_sea_green() -> (color: Color)
        ensures
            color == Color::argb(0xFF3CB371),
    {
        Color::new_argb(0xFF3CB371)
    }

    /// The predefined color medium_slate_blue.
    pub fn medium_slate_blue() -> (color: Color)
        ensures
            color == Color::argb(0xFF7B68EE),
    {
        Color::new_argb(0xFF7B68EE)
    }

    /// The predefined color medium_spring_green.
    pub fn medium_spring_green() -> (color: Color)
        ensures
            color == Color::argb(0xFF00FA9A),
    {
        Color::new_argb(0xFF00FA9A)
    }

    /// The predefined color MediumTurquoise.
    pub fn medium_turquoise() -> (color: Color)
        ensures
            color == Color::argb(0xFF48D1CC),
    {
        Color::new_argb(0xFF48D1CC)
    }

    /// The predefined color medium_violet_red.
    pub fn medium_violet_red() -> (color: Color)
        ensures
            color == Color::argb(0xFFC71585),
    {
        Color::new_argb(0xFFC71585)
    }

    /// The predefined color MidnightBlue.
    pub fn midnight_blue() -> (color: Color)
        ensures
            color == Color::argb(0xFF191970),
    {
        Color::new_argb(0xFF191970)
    }

    /// The predefined color MintCream.
    pub fn mint_cream() -> (color: Color)
        ensures
            color == Color::argb(0xFFF5FFFA),
    {
        Color::new_argb(0xFFF5FFFA)
    }

    /// The predefined color MistyRose.
    pub fn misty_rose() -> (color: Color)
        ensures
            color == Color::argb(0xFFFFE4E1),
    {
        Color::new_argb(0xFFFFE4E1)
    }

    /// The predefined color Moccasin.
    pub fn moccasin() -> (color: Color)
        ensures
            color == Color::argb(0xFFFFE4B5),
    {
        Color::new_argb(0xFFFFE4B5)
    }

    /// The predefined color NavajoWhite.
    pub fn navajo_white() -> (color: Color)
        ensures
            color == Color::argb(0xFFFFDEAD),
    {
        Color::new_argb(0xFFFFDEAD)
    }

    /// The predefined color Navy.
    pub fn navy() -> (color: Color)
        ensures
            color == Color::argb(0xFF000080),
    {
        Color::new_argb(0xFF000080)
    }

    /// The predefined color OldLace.
    pub fn old_lace() -> (color: Color)
        ensures
            color == Color::argb(0xFFFDF5E6),
    {
        Color::new_argb(0xFFFDF5E6)
    }

    /// The predefined color Olive.
    pub fn olive() -> (color: Color)
        ensures
            color == Color::argb(0xFF808000),
    {
        Color::new_argb(0xFF808000)
    }

    /// The predefined color OliveDrab.
    pub fn olive_drab() -> (color: Color)
        ensures
            color == Color::argb(0xFF6B8E23),
    {
        Color::new_argb(0xFF6B8E23)
    }

    /// The predefined color Orange.
    pub fn orange() -> (color: Color)
        ensures
            color == Color::argb(0xFFFFA500),
    {
        Color::new_argb(0xFFFFA500)
    }

    /// The predefined color OrangeRed.
    pub fn orange_red() -> (color: Color)
        ensures
            color == Color::argb(0xFFFF4500),
    {
        Color::new_argb(0xFFFF4500)
    }

    /// The predefined color Orchid.
    pub fn orchid() -> (color: Color)
        ensures
            color == Color::argb(0xFFDA70D6),
    {
        Color::new_argb(0xFFDA70D6)
    }

    /// The predefined color PaleGoldenrod.
    pub fn pale_goldenrod() -> (color: Color)
        ensures
            color == Color::argb(0xFFEEE8AA),
    {
        Color::new_argb(0xFFEEE8AA)
    }

    /// The predefined color PaleGreen.
    pub fn pale_green() -> (color: Color)
        ensures
            color == Color::argb(0xFF98FB98),
    {
        Color::new_argb(0xFF98FB98)
    }

    /// The predefined color PaleTurquoise.
    pub fn pale_turquoise() -> (color: Color)
        ensures
            color == Color::argb(0xFFAFEEEE),
    {
        Color::new_argb(0xFFAFEEEE)
    }

    /// The predefined color pale_violet_red.
    pub fn pale_violet_red() -> (color: Color)
        ensures
            color == Color::argb(0xFFDB7093),
    {
        Color::new_argb(0xFFDB7093)
    }

    /// The predefined color PapayaWhip.
    pub fn papaya_whip() -> (color: Color)
        ensures
            color == Color::argb(0xFFFFEFD5),
    {
        Color::new_argb(0xFFFFEFD5)
    }

    /// The predefined color PeachPuff.
    pub fn peach_puff() -> (color: Color)
        ensures
            color == Color::argb(0xFFFFDAB9),
    {
        Color::new_argb(0xFFFFDAB9)
    }

    /// The predefined color Peru.
    pub fn peru() -> (color: Color)
        ensures
            color == Color::argb(0xFFCD853F),
    {
        Color::new_argb(0xFFCD853F)
    }

    /// The predefined color Pink.
    pub fn pink() -> (color: Color)
        ensures
            color == Color::argb(0xFFFFC0CB),
    {
        Color::new_argb(0xFFFFC0CB)
    }

    /// The predefined color Plum.
    pub fn plum() -> (color: Color)
        ensures
            color == Color::argb(0xFFDDA0DD),
    {
        Color::new_argb(0xFFDDA0DD)
    }

    /// The predefined color PowderBlue.
    pub fn powder_blue() -> (color: Color)
        ensures
            color == Color::argb(0xFFB0E0E6),
    {
        Color::new_argb(0xFFB0E0E6)
    }

    /// The predefined color Purple.
    pub fn purple() -> (color: Color)
        ensures
            color == Color::argb(0xFF800080),
    {
        Color::new_argb(0xFF800080)
    }

    /// The predefined color Red.
    pub fn red() -> (color: Color)
        ensures
            color == Color::argb(0xFFFF0000),
    {
        Color::new_argb(0xFFFF0000)
    }

    /// The predefined color RosyBrown.
    pub fn rosy_brown() -> (color: Color)
        ensures
            color == Color::argb(0xFFBC8F8F),
    {
        Color::new_argb(0xFFBC8F8F)
    }

    /// The predefined color RoyalBlue.
    pub fn royal_blue() -> (color: Color)
        ensures
            color == Color::argb(0xFF4169E1),
    {
        Color::new_argb(0xFF4169E1)
    }

    /// The predefined color SaddleBrown.
    pub fn saddle_brown() -> (color: Color)
        ensures
            color == Color::argb(0xFF8B4513),
    {
        Color::new_argb(0xFF8B4513)
    }

    /// The predefined color Salmon.
    pub fn salmon() -> (color: Color)
        ensures
            color == Color::argb(0xFFFA8072),
    {
        Color::new_argb(0xFFFA8072)
    }

    /// The predefined color SandyBrown.
    pub fn sandy_brown() -> (color: Color)
        ensures
            color == Color::argb(0xFFF4A460),
    {
        Color::new_argb(0xFFF4A460)
    }

    /// The predefined color SeaGreen.
    pub fn sea_green() -> (color: Color)
        ensures
            color == Color::argb(0xFF2E8B57),
    {
        Color::new_argb(0xFF2E8B57)
    }

    /// The predefined color SeaShell.
    pub fn sea_shell() -> (color: Color)
        ensures
            color == Color::argb(0xFFFFF5EE),
    {
        Color::new_argb(0xFFFFF5EE)
    }

    /// The predefined color Sienna.
    pub fn sienna() -> (color: Color)
        ensures
            color == Color::argb(0xFFA0522D),
    {
        Color::new_argb(0xFFA0522D)
    }

    /// The predefined color Silver.
    pub fn silver() -> (color: Color)
        ensures
            color == Color::argb(0xFFC0C0C0),
    {
        Color::new_argb(0xFFC0C0C0)
    }

    /// The predefined color SkyBlue.
    pub fn sky_blue() -> (color: Color)
        ensures
            color == Color::argb(0xFF87CEEB),
    {
        Color::new_argb(0xFF87CEEB)
    }

    /// The predefined color SlateBlue.
    pub fn slate_blue() -> (color: Color)
        ensures
            color == Color::argb(0xFF6A5ACD),
    {
        Color::new_argb(0xFF6A5ACD)
    }

    /// The predefined color SlateGray.
    pub fn slate_gray() -> (color: Color)
        ensures
            color == Color::argb(0xFF708090),
    {
        Color::new_argb(0xFF708090)
    }

    /// The predefined color Snow.
    pub fn snow() -> (color: Color)
        ensures
            color == Color::argb(0xFFFFFAFA),
    {
        Color::new_argb(0xFFFFFAFA)
    }

    /// The predefined color SpringGreen.
    pub fn spring_green() -> (color: Color)
        ensures
            color == Color::argb(0xFF00FF7F),
    {
        Color::new_argb(0xFF00FF7F)
    }

    /// The predefined color SteelBlue.
    pub fn steel_blue() -> (color: Color)
        ensures
            color == Color::argb(0xFF4682B4),
    {
        Color::new_argb(0xFF4682B4)
    }

    /// The predefined color Tan.
    pub fn tan() -> (color: Color)
        ensures
            color == Color::argb(0xFFD2B48C),
    {
        Color::new_argb(0xFFD2B48C)
    }

    /// The predefined color Teal.
    pub fn teal() -> (color: Color)
        ensures
            color == Color::argb(0xFF008080),
    {
        Color::new_argb(0xFF008080)
    }

    /// The predefined color Thistle.
    pub fn thistle() -> (color: Color)
        ensures
            color == Color::argb(0xFFD8BFD8),
    {
        Color::new_argb(0xFFD8BFD8)
    }

    /// The predefined color Tomato.
    pub fn tomato() -> (color: Color)
        ensures
            color == Color::argb(0xFFFF6347),
    {
        Color::new_argb(0xFFFF6347)
    }

    /// The predefined color Transparent.
    pub fn transparent() -> (color: Color)
        ensures
            color == Color::argb(0x00FFFFFF),
    {
        Color::new_argb(0x00FFFFFF)
    }

    /// The predefined color Turquoise.
    pub fn turquoise() -> (color: Color)
        ensures
            color == Color::argb(0xFF40E0D0),
    {
        Color::new_argb(0xFF40E0D0)
    }

    /// The predefined color Violet.
    pub fn violet() -> (color: Color)
        ensures
            color == Color::argb(0xFFEE82EE),
    {
        Color::new_argb(0xFFEE82EE)
    }

    /// The predefined color Wheat.
    pub fn wheat() -> (color: Color)
        ensures
            color == Color::argb(0xFFF5DEB3),
    {
        Color::new_argb(0xFFF5DEB3)
    }

    /// The predefined color White.
    pub fn white() -> (color: Color)
        ensures
            color == Color::argb(0xFFFFFFFF),
    {
        Color::new_argb(0xFFFFFFFF)
    }

    /// The predefined color WhiteSmoke.
    pub fn white_smoke() -> (color: Color)
        ensures
            color == Color::argb(0xFFF5F5F5),
    {
        Color::new_argb(0xFFF5F5F5)
    }

    /// The predefined color Yellow.
    pub fn yellow() -> (color: Color)
        ensures
            color == Color::argb(0xFFFFFF00),
    {
        Color::new_argb(0xFFFFFF00)
    }

    /// The predefined color YellowGreen.
    pub fn yellow_green() -> (color: Color)
        ensures
            color == Color::argb(0xFF9ACD32),
    {
        Color::new_argb(0xFF9ACD32)
    }
}

} // verus!
