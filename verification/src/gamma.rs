//! Perceptual gamma curve for frequency magnitudes.
//!
//! A raw magnitude byte in [0, 255] is normalized to [0, 1] and
//! compressed with a gamma exponent of 0.85, which boosts quiet bins
//! the way human loudness perception does. The curve is tabulated in
//! Q15 fixed point: an entry is the gamma-corrected fraction times
//! `GAMMA_ONE`, rounded to the nearest integer, so magnitude 0 maps to
//! exactly 0 and magnitude 255 to exactly `GAMMA_ONE` (that is, 1.0).

use vstd::prelude::*;

verus! {

/// Q15 fixed-point representation of 1.0 for gamma-corrected values.
pub const GAMMA_ONE: u16 = 32768;

/// The tabulated gamma curve: the Q15 value of (v / 255)^0.85.
pub open spec fn gamma_spec(v: u8) -> u16 {
    if v == 0 {
        0
    } else if v == 1 {
        295
    } else if v == 2 {
        532
    } else if v == 3 {
        751
    } else if v == 4 {
        959
    } else if v == 5 {
        1159
    } else if v == 6 {
        1353
    } else if v == 7 {
        1542
    } else if v == 8 {
        1728
    } else if v == 9 {
        1910
    } else if v == 10 {
        2089
    } else if v == 11 {
        2265
    } else if v == 12 {
        2439
    } else if v == 13 {
        2611
    } else if v == 14 {
        2780
    } else if v == 15 {
        2948
    } else if v == 16 {
        3115
    } else if v == 17 {
        3279
    } else if v == 18 {
        3442
    } else if v == 19 {
        3604
    } else if v == 20 {
        3765
    } else if v == 21 {
        3924
    } else if v == 22 {
        4083
    } else if v == 23 {
        4240
    } else if v == 24 {
        4396
    } else if v == 25 {
        4551
    } else if v == 26 {
        4706
    } else if v == 27 {
        4859
    } else if v == 28 {
        5012
    } else if v == 29 {
        5163
    } else if v == 30 {
        5314
    } else if v == 31 {
        5464
    } else if v == 32 {
        5614
    } else if v == 33 {
        5763
    } else if v == 34 {
        5911
    } else if v == 35 {
        6058
    } else if v == 36 {
        6205
    } else if v == 37 {
        6351
    } else if v == 38 {
        6497
    } else if v == 39 {
        6642
    } else if v == 40 {
        6786
    } else if v == 41 {
        6930
    } else if v == 42 {
        7074
    } else if v == 43 {
        7217
    } else if v == 44 {
        7359
    } else if v == 45 {
        7501
    } else if v == 46 {
        7642
    } else if v == 47 {
        7783
    } else if v == 48 {
        7924
    } else if v == 49 {
        8064
    } else if v == 50 {
        8204
    } else if v == 51 {
        8343
    } else if v == 52 {
        8482
    } else if v == 53 {
        8620
    } else if v == 54 {
        8758
    } else if v == 55 {
        8896
    } else if v == 56 {
        9033
    } else if v == 57 {
        9170
    } else if v == 58 {
        9307
    } else if v == 59 {
        9443
    } else if v == 60 {
        9579
    } else if v == 61 {
        9715
    } else if v == 62 {
        9850
    } else if v == 63 {
        9985
    } else if v == 64 {
        10119
    } else if v == 65 {
        10253
    } else if v == 66 {
        10387
    } else if v == 67 {
        10521
    } else if v == 68 {
        10654
    } else if v == 69 {
        10787
    } else if v == 70 {
        10920
    } else if v == 71 {
        11052
    } else if v == 72 {
        11185
    } else if v == 73 {
        11317
    } else if v == 74 {
        11448
    } else if v == 75 {
        11580
    } else if v == 76 {
        11711
    } else if v == 77 {
        11842
    } else if v == 78 {
        11972
    } else if v == 79 {
        12102
    } else if v == 80 {
        12233
    } else if v == 81 {
        12362
    } else if v == 82 {
        12492
    } else if v == 83 {
        12621
    } else if v == 84 {
        12751
    } else if v == 85 {
        12879
    } else if v == 86 {
        13008
    } else if v == 87 {
        13137
    } else if v == 88 {
        13265
    } else if v == 89 {
        13393
    } else if v == 90 {
        13521
    } else if v == 91 {
        13648
    } else if v == 92 {
        13776
    } else if v == 93 {
        13903
    } else if v == 94 {
        14030
    } else if v == 95 {
        14156
    } else if v == 96 {
        14283
    } else if v == 97 {
        14409
    } else if v == 98 {
        14536
    } else if v == 99 {
        14662
    } else if v == 100 {
        14787
    } else if v == 101 {
        14913
    } else if v == 102 {
        15038
    } else if v == 103 {
        15164
    } else if v == 104 {
        15289
    } else if v == 105 {
        15414
    } else if v == 106 {
        15538
    } else if v == 107 {
        15663
    } else if v == 108 {
        15787
    } else if v == 109 {
        15911
    } else if v == 110 {
        16035
    } else if v == 111 {
        16159
    } else if v == 112 {
        16283
    } else if v == 113 {
        16406
    } else if v == 114 {
        16530
    } else if v == 115 {
        16653
    } else if v == 116 {
        16776
    } else if v == 117 {
        16899
    } else if v == 118 {
        17021
    } else if v == 119 {
        17144
    } else if v == 120 {
        17266
    } else if v == 121 {
        17388
    } else if v == 122 {
        17510
    } else if v == 123 {
        17632
    } else if v == 124 {
        17754
    } else if v == 125 {
        17876
    } else if v == 126 {
        17997
    } else if v == 127 {
        18119
    } else if v == 128 {
        18240
    } else if v == 129 {
        18361
    } else if v == 130 {
        18482
    } else if v == 131 {
        18603
    } else if v == 132 {
        18723
    } else if v == 133 {
        18844
    } else if v == 134 {
        18964
    } else if v == 135 {
        19084
    } else if v == 136 {
        19204
    } else if v == 137 {
        19324
    } else if v == 138 {
        19444
    } else if v == 139 {
        19564
    } else if v == 140 {
        19683
    } else if v == 141 {
        19803
    } else if v == 142 {
        19922
    } else if v == 143 {
        20041
    } else if v == 144 {
        20160
    } else if v == 145 {
        20279
    } else if v == 146 {
        20398
    } else if v == 147 {
        20517
    } else if v == 148 {
        20635
    } else if v == 149 {
        20754
    } else if v == 150 {
        20872
    } else if v == 151 {
        20990
    } else if v == 152 {
        21109
    } else if v == 153 {
        21227
    } else if v == 154 {
        21344
    } else if v == 155 {
        21462
    } else if v == 156 {
        21580
    } else if v == 157 {
        21697
    } else if v == 158 {
        21815
    } else if v == 159 {
        21932
    } else if v == 160 {
        22049
    } else if v == 161 {
        22166
    } else if v == 162 {
        22283
    } else if v == 163 {
        22400
    } else if v == 164 {
        22517
    } else if v == 165 {
        22634
    } else if v == 166 {
        22750
    } else if v == 167 {
        22867
    } else if v == 168 {
        22983
    } else if v == 169 {
        23099
    } else if v == 170 {
        23215
    } else if v == 171 {
        23331
    } else if v == 172 {
        23447
    } else if v == 173 {
        23563
    } else if v == 174 {
        23679
    } else if v == 175 {
        23794
    } else if v == 176 {
        23910
    } else if v == 177 {
        24025
    } else if v == 178 {
        24141
    } else if v == 179 {
        24256
    } else if v == 180 {
        24371
    } else if v == 181 {
        24486
    } else if v == 182 {
        24601
    } else if v == 183 {
        24716
    } else if v == 184 {
        24831
    } else if v == 185 {
        24945
    } else if v == 186 {
        25060
    } else if v == 187 {
        25174
    } else if v == 188 {
        25289
    } else if v == 189 {
        25403
    } else if v == 190 {
        25517
    } else if v == 191 {
        25631
    } else if v == 192 {
        25745
    } else if v == 193 {
        25859
    } else if v == 194 {
        25973
    } else if v == 195 {
        26087
    } else if v == 196 {
        26200
    } else if v == 197 {
        26314
    } else if v == 198 {
        26428
    } else if v == 199 {
        26541
    } else if v == 200 {
        26654
    } else if v == 201 {
        26767
    } else if v == 202 {
        26881
    } else if v == 203 {
        26994
    } else if v == 204 {
        27107
    } else if v == 205 {
        27220
    } else if v == 206 {
        27332
    } else if v == 207 {
        27445
    } else if v == 208 {
        27558
    } else if v == 209 {
        27670
    } else if v == 210 {
        27783
    } else if v == 211 {
        27895
    } else if v == 212 {
        28008
    } else if v == 213 {
        28120
    } else if v == 214 {
        28232
    } else if v == 215 {
        28344
    } else if v == 216 {
        28456
    } else if v == 217 {
        28568
    } else if v == 218 {
        28680
    } else if v == 219 {
        28792
    } else if v == 220 {
        28903
    } else if v == 221 {
        29015
    } else if v == 222 {
        29127
    } else if v == 223 {
        29238
    } else if v == 224 {
        29350
    } else if v == 225 {
        29461
    } else if v == 226 {
        29572
    } else if v == 227 {
        29683
    } else if v == 228 {
        29794
    } else if v == 229 {
        29905
    } else if v == 230 {
        30016
    } else if v == 231 {
        30127
    } else if v == 232 {
        30238
    } else if v == 233 {
        30349
    } else if v == 234 {
        30460
    } else if v == 235 {
        30570
    } else if v == 236 {
        30681
    } else if v == 237 {
        30791
    } else if v == 238 {
        30902
    } else if v == 239 {
        31012
    } else if v == 240 {
        31122
    } else if v == 241 {
        31232
    } else if v == 242 {
        31343
    } else if v == 243 {
        31453
    } else if v == 244 {
        31563
    } else if v == 245 {
        31672
    } else if v == 246 {
        31782
    } else if v == 247 {
        31892
    } else if v == 248 {
        32002
    } else if v == 249 {
        32111
    } else if v == 250 {
        32221
    } else if v == 251 {
        32331
    } else if v == 252 {
        32440
    } else if v == 253 {
        32549
    } else if v == 254 {
        32659
    } else {
        32768
    }
}

/// Gamma-corrects one magnitude byte; returns the Q15 value of
/// (v / 255)^0.85, exactly as `gamma_spec` tabulates it.
pub fn gamma_value(v: u8) -> (g: u16)
    ensures
        g == gamma_spec(v),
        g <= GAMMA_ONE,
{
    proof {
        lemma_gamma_le_one(v);
    }
    if v == 0 {
        0
    } else if v == 1 {
        295
    } else if v == 2 {
        532
    } else if v == 3 {
        751
    } else if v == 4 {
        959
    } else if v == 5 {
        1159
    } else if v == 6 {
        1353
    } else if v == 7 {
        1542
    } else if v == 8 {
        1728
    } else if v == 9 {
        1910
    } else if v == 10 {
        2089
    } else if v == 11 {
        2265
    } else if v == 12 {
        2439
    } else if v == 13 {
        2611
    } else if v == 14 {
        2780
    } else if v == 15 {
        2948
    } else if v == 16 {
        3115
    } else if v == 17 {
        3279
    } else if v == 18 {
        3442
    } else if v == 19 {
        3604
    } else if v == 20 {
        3765
    } else if v == 21 {
        3924
    } else if v == 22 {
        4083
    } else if v == 23 {
        4240
    } else if v == 24 {
        4396
    } else if v == 25 {
        4551
    } else if v == 26 {
        4706
    } else if v == 27 {
        4859
    } else if v == 28 {
        5012
    } else if v == 29 {
        5163
    } else if v == 30 {
        5314
    } else if v == 31 {
        5464
    } else if v == 32 {
        5614
    } else if v == 33 {
        5763
    } else if v == 34 {
        5911
    } else if v == 35 {
        6058
    } else if v == 36 {
        6205
    } else if v == 37 {
        6351
    } else if v == 38 {
        6497
    } else if v == 39 {
        6642
    } else if v == 40 {
        6786
    } else if v == 41 {
        6930
    } else if v == 42 {
        7074
    } else if v == 43 {
        7217
    } else if v == 44 {
        7359
    } else if v == 45 {
        7501
    } else if v == 46 {
        7642
    } else if v == 47 {
        7783
    } else if v == 48 {
        7924
    } else if v == 49 {
        8064
    } else if v == 50 {
        8204
    } else if v == 51 {
        8343
    } else if v == 52 {
        8482
    } else if v == 53 {
        8620
    } else if v == 54 {
        8758
    } else if v == 55 {
        8896
    } else if v == 56 {
        9033
    } else if v == 57 {
        9170
    } else if v == 58 {
        9307
    } else if v == 59 {
        9443
    } else if v == 60 {
        9579
    } else if v == 61 {
        9715
    } else if v == 62 {
        9850
    } else if v == 63 {
        9985
    } else if v == 64 {
        10119
    } else if v == 65 {
        10253
    } else if v == 66 {
        10387
    } else if v == 67 {
        10521
    } else if v == 68 {
        10654
    } else if v == 69 {
        10787
    } else if v == 70 {
        10920
    } else if v == 71 {
        11052
    } else if v == 72 {
        11185
    } else if v == 73 {
        11317
    } else if v == 74 {
        11448
    } else if v == 75 {
        11580
    } else if v == 76 {
        11711
    } else if v == 77 {
        11842
    } else if v == 78 {
        11972
    } else if v == 79 {
        12102
    } else if v == 80 {
        12233
    } else if v == 81 {
        12362
    } else if v == 82 {
        12492
    } else if v == 83 {
        12621
    } else if v == 84 {
        12751
    } else if v == 85 {
        12879
    } else if v == 86 {
        13008
    } else if v == 87 {
        13137
    } else if v == 88 {
        13265
    } else if v == 89 {
        13393
    } else if v == 90 {
        13521
    } else if v == 91 {
        13648
    } else if v == 92 {
        13776
    } else if v == 93 {
        13903
    } else if v == 94 {
        14030
    } else if v == 95 {
        14156
    } else if v == 96 {
        14283
    } else if v == 97 {
        14409
    } else if v == 98 {
        14536
    } else if v == 99 {
        14662
    } else if v == 100 {
        14787
    } else if v == 101 {
        14913
    } else if v == 102 {
        15038
    } else if v == 103 {
        15164
    } else if v == 104 {
        15289
    } else if v == 105 {
        15414
    } else if v == 106 {
        15538
    } else if v == 107 {
        15663
    } else if v == 108 {
        15787
    } else if v == 109 {
        15911
    } else if v == 110 {
        16035
    } else if v == 111 {
        16159
    } else if v == 112 {
        16283
    } else if v == 113 {
        16406
    } else if v == 114 {
        16530
    } else if v == 115 {
        16653
    } else if v == 116 {
        16776
    } else if v == 117 {
        16899
    } else if v == 118 {
        17021
    } else if v == 119 {
        17144
    } else if v == 120 {
        17266
    } else if v == 121 {
        17388
    } else if v == 122 {
        17510
    } else if v == 123 {
        17632
    } else if v == 124 {
        17754
    } else if v == 125 {
        17876
    } else if v == 126 {
        17997
    } else if v == 127 {
        18119
    } else if v == 128 {
        18240
    } else if v == 129 {
        18361
    } else if v == 130 {
        18482
    } else if v == 131 {
        18603
    } else if v == 132 {
        18723
    } else if v == 133 {
        18844
    } else if v == 134 {
        18964
    } else if v == 135 {
        19084
    } else if v == 136 {
        19204
    } else if v == 137 {
        19324
    } else if v == 138 {
        19444
    } else if v == 139 {
        19564
    } else if v == 140 {
        19683
    } else if v == 141 {
        19803
    } else if v == 142 {
        19922
    } else if v == 143 {
        20041
    } else if v == 144 {
        20160
    } else if v == 145 {
        20279
    } else if v == 146 {
        20398
    } else if v == 147 {
        20517
    } else if v == 148 {
        20635
    } else if v == 149 {
        20754
    } else if v == 150 {
        20872
    } else if v == 151 {
        20990
    } else if v == 152 {
        21109
    } else if v == 153 {
        21227
    } else if v == 154 {
        21344
    } else if v == 155 {
        21462
    } else if v == 156 {
        21580
    } else if v == 157 {
        21697
    } else if v == 158 {
        21815
    } else if v == 159 {
        21932
    } else if v == 160 {
        22049
    } else if v == 161 {
        22166
    } else if v == 162 {
        22283
    } else if v == 163 {
        22400
    } else if v == 164 {
        22517
    } else if v == 165 {
        22634
    } else if v == 166 {
        22750
    } else if v == 167 {
        22867
    } else if v == 168 {
        22983
    } else if v == 169 {
        23099
    } else if v == 170 {
        23215
    } else if v == 171 {
        23331
    } else if v == 172 {
        23447
    } else if v == 173 {
        23563
    } else if v == 174 {
        23679
    } else if v == 175 {
        23794
    } else if v == 176 {
        23910
    } else if v == 177 {
        24025
    } else if v == 178 {
        24141
    } else if v == 179 {
        24256
    } else if v == 180 {
        24371
    } else if v == 181 {
        24486
    } else if v == 182 {
        24601
    } else if v == 183 {
        24716
    } else if v == 184 {
        24831
    } else if v == 185 {
        24945
    } else if v == 186 {
        25060
    } else if v == 187 {
        25174
    } else if v == 188 {
        25289
    } else if v == 189 {
        25403
    } else if v == 190 {
        25517
    } else if v == 191 {
        25631
    } else if v == 192 {
        25745
    } else if v == 193 {
        25859
    } else if v == 194 {
        25973
    } else if v == 195 {
        26087
    } else if v == 196 {
        26200
    } else if v == 197 {
        26314
    } else if v == 198 {
        26428
    } else if v == 199 {
        26541
    } else if v == 200 {
        26654
    } else if v == 201 {
        26767
    } else if v == 202 {
        26881
    } else if v == 203 {
        26994
    } else if v == 204 {
        27107
    } else if v == 205 {
        27220
    } else if v == 206 {
        27332
    } else if v == 207 {
        27445
    } else if v == 208 {
        27558
    } else if v == 209 {
        27670
    } else if v == 210 {
        27783
    } else if v == 211 {
        27895
    } else if v == 212 {
        28008
    } else if v == 213 {
        28120
    } else if v == 214 {
        28232
    } else if v == 215 {
        28344
    } else if v == 216 {
        28456
    } else if v == 217 {
        28568
    } else if v == 218 {
        28680
    } else if v == 219 {
        28792
    } else if v == 220 {
        28903
    } else if v == 221 {
        29015
    } else if v == 222 {
        29127
    } else if v == 223 {
        29238
    } else if v == 224 {
        29350
    } else if v == 225 {
        29461
    } else if v == 226 {
        29572
    } else if v == 227 {
        29683
    } else if v == 228 {
        29794
    } else if v == 229 {
        29905
    } else if v == 230 {
        30016
    } else if v == 231 {
        30127
    } else if v == 232 {
        30238
    } else if v == 233 {
        30349
    } else if v == 234 {
        30460
    } else if v == 235 {
        30570
    } else if v == 236 {
        30681
    } else if v == 237 {
        30791
    } else if v == 238 {
        30902
    } else if v == 239 {
        31012
    } else if v == 240 {
        31122
    } else if v == 241 {
        31232
    } else if v == 242 {
        31343
    } else if v == 243 {
        31453
    } else if v == 244 {
        31563
    } else if v == 245 {
        31672
    } else if v == 246 {
        31782
    } else if v == 247 {
        31892
    } else if v == 248 {
        32002
    } else if v == 249 {
        32111
    } else if v == 250 {
        32221
    } else if v == 251 {
        32331
    } else if v == 252 {
        32440
    } else if v == 253 {
        32549
    } else if v == 254 {
        32659
    } else {
        32768
    }
}

/// The gamma curve never exceeds 1.0: quiet bins are boosted, but no
/// magnitude maps above full scale.
pub proof fn lemma_gamma_le_one(v: u8)
    ensures
        gamma_spec(v) <= GAMMA_ONE,
{
}

/// One step of the gamma curve: the tabulated values never decrease
/// from one magnitude to the next.
proof fn lemma_gamma_step(v: u8)
    requires
        v < 255,
    ensures
        gamma_spec(v) <= gamma_spec((v + 1) as u8),
{
}

/// The gamma curve is monotone: a louder magnitude never maps to a
/// smaller gamma-corrected value.
pub proof fn lemma_gamma_monotone(a: u8, b: u8)
    requires
        a <= b,
    ensures
        gamma_spec(a) <= gamma_spec(b),
    decreases b - a,
{
    if a < b {
        lemma_gamma_step(a);
        lemma_gamma_monotone((a + 1) as u8, b);
    }
}

} // verus!
